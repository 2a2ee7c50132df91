//! The bind group layouts and the render pipelines of the three built-in
//! pipelines, put together from their uniform slots.

use vstd::prelude::*;
use crate::layout::ShaderStages;
use crate::layout::UniformSlot;
use crate::pipeline::primitive_state_spec;
use crate::pipeline::single_sample_spec;
use crate::pipeline::BindGroupLayoutDescriptor;
use crate::pipeline::BindGroupLayoutEntry;
use crate::pipeline::BindingType;
use crate::pipeline::BlendComponent;
use crate::pipeline::BlendState;
use crate::pipeline::ColorTargetState;
use crate::pipeline::ColorWrites;
use crate::pipeline::PrimitiveTopology;
use crate::pipeline::RenderPipelineBuilder;
use crate::pipeline::RenderPipelineDescriptor;
use crate::pipeline::ShaderModuleDescriptor;
use crate::pipeline::VertexBufferLayoutModel;
use crate::pipeline::VertexDescriptor;
use crate::texture::TextureFormat;

verus! {

/// The layout entry of a uniform slot: a uniform buffer with a dynamic
/// offset, at the slot's binding, for the slot's stages.
pub open spec fn uniform_layout_entry_spec(slot: UniformSlot) -> BindGroupLayoutEntry {
    BindGroupLayoutEntry {
        binding: slot.binding,
        visibility: slot.visibility,
        ty: BindingType::UniformBuffer {
            has_dynamic_offset: true,
            min_binding_size: slot.min_binding_size as u64,
        },
    }
}

/// The layout entries of the given slots, one for each, in their order, so
/// that a bind group of this layout takes one dynamic offset per slot in the
/// same order.
pub open spec fn uniform_layout_entries_spec(slots: Seq<UniformSlot>) -> Seq<BindGroupLayoutEntry> {
    Seq::new(slots.len(), |i: int| uniform_layout_entry_spec(slots[i]))
}

/// The layout entries of a texture's bind group: the texture at binding 0
/// and its sampler at binding 1, both for the fragment stage.
pub open spec fn texture_layout_entries_spec() -> Seq<BindGroupLayoutEntry> {
    seq![
        BindGroupLayoutEntry {
            binding: 0,
            visibility: ShaderStages::Fragment,
            ty: BindingType::Texture,
        },
        BindGroupLayoutEntry {
            binding: 1,
            visibility: ShaderStages::Fragment,
            ty: BindingType::Sampler,
        },
    ]
}

/// A target whose colour is laid over what is there by the source's alpha,
/// and whose alpha is replaced.
pub open spec fn alpha_over_target_spec(format: TextureFormat) -> ColorTargetState {
    ColorTargetState {
        format,
        blend: Some(
            BlendState {
                color: BlendComponent::alpha_over_spec(),
                alpha: BlendComponent::replace_spec(),
            },
        ),
        write_mask: ColorWrites::all_spec(),
    }
}

/// A target whose colour and alpha are replaced.
pub open spec fn replace_target_spec(format: TextureFormat) -> ColorTargetState {
    ColorTargetState {
        format,
        blend: Some(
            BlendState {
                color: BlendComponent::replace_spec(),
                alpha: BlendComponent::replace_spec(),
            },
        ),
        write_mask: ColorWrites::all_spec(),
    }
}

/// The labels of a built-in pipeline.
#[derive(Clone, Copy)]
pub struct PipelineLabels<'a> {
    pub pipeline: &'a str,
    pub shader: &'a str,
    pub layout: &'a str,
}

/// Whether `d` is the built-in pipeline with the given parts: filled
/// primitives of the given topology, one buffer of vertices of the given
/// layout, one target, the entry points `vs_main` and `fs_main`, no push
/// constants, and bind groups with the given entries.
pub open spec fn describes_pipeline(
    d: RenderPipelineDescriptor,
    labels: PipelineLabels,
    shader_source: Seq<char>,
    topology: PrimitiveTopology,
    target: ColorTargetState,
    vertex: VertexBufferLayoutModel,
    groups: Seq<Seq<BindGroupLayoutEntry>>,
) -> bool {
    &&& d.label is Some && d.label->0@ == labels.pipeline@
    &&& d.shader.label is Some && d.shader.label->0@ == labels.shader@
    &&& d.shader.source@ == shader_source
    &&& d.vs_entry_point@ == "vs_main"@
    &&& d.fs_entry_point@ == "fs_main"@
    &&& d.primitive == primitive_state_spec(topology, false)
    &&& d.multisample == single_sample_spec()
    &&& d.targets@ == seq![Some(target)]
    &&& d.buffers@.len() == 1
    &&& d.buffers@[0]@ == vertex
    &&& d.layout.label is Some && d.layout.label->0@ == labels.layout@
    &&& d.layout.push_constant_ranges@.len() == 0
    &&& d.layout.bind_group_layouts@.len() == groups.len()
    &&& forall|i: int|
        0 <= i < groups.len() ==> (#[trigger] d.layout.bind_group_layouts@[i]).entries@ == groups[i]
}

/// The layout of the bind group of the given uniform slots.
pub fn uniform_bind_group_layout<'a>(label: Option<&'a str>, slots: &Vec<UniformSlot>) -> (layout:
    BindGroupLayoutDescriptor<'a>)
    ensures
        layout.label == label,
        layout.entries@ == uniform_layout_entries_spec(slots@),
{
    let mut entries: Vec<BindGroupLayoutEntry> = Vec::new();
    let mut i: usize = 0;
    while i < slots.len()
        invariant
            i <= slots@.len(),
            entries@.len() == i,
            forall|k: int| 0 <= k < i ==> entries@[k] == uniform_layout_entry_spec(slots@[k]),
        decreases slots@.len() - i,
    {
        let slot: UniformSlot = slots[i];
        entries.push(
            BindGroupLayoutEntry {
                binding: slot.binding,
                visibility: slot.visibility,
                ty: BindingType::UniformBuffer {
                    has_dynamic_offset: true,
                    min_binding_size: slot.min_binding_size as u64,
                },
            },
        );
        i += 1;
    }
    assert(entries@ =~= uniform_layout_entries_spec(slots@));
    BindGroupLayoutDescriptor { label, entries }
}

/// The layout of the bind group of a texture and its sampler.
pub fn texture_bind_group_layout<'a>(label: Option<&'a str>) -> (layout: BindGroupLayoutDescriptor<
    'a,
>)
    ensures
        layout.label == label,
        layout.entries@ == texture_layout_entries_spec(),
{
    let mut entries: Vec<BindGroupLayoutEntry> = Vec::new();
    entries.push(
        BindGroupLayoutEntry {
            binding: 0,
            visibility: ShaderStages::Fragment,
            ty: BindingType::Texture,
        },
    );
    entries.push(
        BindGroupLayoutEntry {
            binding: 1,
            visibility: ShaderStages::Fragment,
            ty: BindingType::Sampler,
        },
    );
    assert(entries@ =~= texture_layout_entries_spec());
    BindGroupLayoutDescriptor { label, entries }
}

/// A target whose colour is laid over what is there by the source's alpha.
pub fn alpha_over_target(format: TextureFormat) -> (target: ColorTargetState)
    ensures
        target == alpha_over_target_spec(format),
{
    ColorTargetState {
        format,
        blend: Some(
            BlendState { color: BlendComponent::alpha_over(), alpha: BlendComponent::replace() },
        ),
        write_mask: ColorWrites::all(),
    }
}

/// A target whose colour and alpha are replaced.
pub fn replace_target(format: TextureFormat) -> (target: ColorTargetState)
    ensures
        target == replace_target_spec(format),
{
    ColorTargetState {
        format,
        blend: Some(
            BlendState { color: BlendComponent::replace(), alpha: BlendComponent::replace() },
        ),
        write_mask: ColorWrites::all(),
    }
}

/// Puts a built-in pipeline together from its parts.
pub fn builtin_pipeline<'a, V: VertexDescriptor>(
    labels: PipelineLabels<'a>,
    shader_source: &'a str,
    topology: PrimitiveTopology,
    target: ColorTargetState,
    bind_group_layouts: Vec<BindGroupLayoutDescriptor<'a>>,
) -> (d: RenderPipelineDescriptor<'a>)
    ensures
        describes_pipeline(
            d,
            labels,
            shader_source@,
            topology,
            target,
            V::desc_spec(),
            Seq::new(bind_group_layouts@.len(), |i: int| bind_group_layouts@[i].entries@),
        ),
        d.layout.bind_group_layouts == bind_group_layouts,
{
    let module = ShaderModuleDescriptor { label: Some(labels.shader), source: shader_source };
    RenderPipelineBuilder::new().with_topology(topology).add_vertex_buffer_layout::<
        V,
    >().add_color_target_state(target).shader(module).pipeline_layout_descriptor(
        labels.layout,
        bind_group_layouts,
        Vec::new(),
    ).build(labels.pipeline, "vs_main", "fs_main")
}

} // verus!
