//! Descriptions of render and compute pipelines, and the builders that put
//! them together. A description is a plain value; the graphics backend
//! creates the pipeline from it.

use vstd::prelude::*;
use crate::layout::ShaderStages;
use crate::texture::TextureFormat;

verus! {

/// How vertices are assembled into primitives.
#[derive(Clone, Copy, Debug, PartialEq, Eq, Structural)]
pub enum PrimitiveTopology {
    PointList,
    LineList,
    LineStrip,
    TriangleList,
    TriangleStrip,
}

/// The winding of front faces.
#[derive(Clone, Copy, Debug, PartialEq, Eq, Structural)]
pub enum FrontFace {
    Ccw,
    Cw,
}

/// A side of a triangle.
#[derive(Clone, Copy, Debug, PartialEq, Eq, Structural)]
pub enum Face {
    Front,
    Back,
}

/// How polygons are rasterised.
#[derive(Clone, Copy, Debug, PartialEq, Eq, Structural)]
pub enum PolygonMode {
    Fill,
    Line,
}

/// The format of a vertex attribute.
#[derive(Clone, Copy, Debug, PartialEq, Eq, Structural)]
pub enum VertexFormat {
    Float32x2,
    Float32x3,
}

/// One attribute of a vertex.
#[derive(Clone, Copy, Debug, PartialEq, Eq, Structural)]
pub struct VertexAttribute {
    pub offset: u64,
    pub shader_location: u32,
    pub format: VertexFormat,
}

/// The layout of a vertex buffer that is stepped once per vertex.
#[derive(Clone)]
pub struct VertexBufferLayout {
    pub array_stride: u64,
    pub attributes: Vec<VertexAttribute>,
}

/// A [`VertexBufferLayout`] as a mathematical value.
pub struct VertexBufferLayoutModel {
    pub array_stride: u64,
    pub attributes: Seq<VertexAttribute>,
}

impl View for VertexBufferLayout {
    type V = VertexBufferLayoutModel;

    open spec fn view(&self) -> VertexBufferLayoutModel {
        VertexBufferLayoutModel { array_stride: self.array_stride, attributes: self.attributes@ }
    }
}

/// A type of vertex that knows the layout of its buffer.
pub trait VertexDescriptor {
    /// The layout of a buffer of such vertices.
    spec fn desc_spec() -> VertexBufferLayoutModel;

    /// The layout of a buffer of such vertices.
    fn desc() -> (layout: VertexBufferLayout)
        ensures
            layout@ == Self::desc_spec(),
    ;
}

/// A factor of the blend equation.
#[derive(Clone, Copy, Debug, PartialEq, Eq, Structural)]
pub enum BlendFactor {
    Zero,
    One,
    SrcAlpha,
    OneMinusSrcAlpha,
}

/// The operation of the blend equation.
#[derive(Clone, Copy, Debug, PartialEq, Eq, Structural)]
pub enum BlendOperation {
    Add,
}

/// The blend equation of the colour or of the alpha channel.
#[derive(Clone, Copy, Debug, PartialEq, Eq, Structural)]
pub struct BlendComponent {
    pub src_factor: BlendFactor,
    pub dst_factor: BlendFactor,
    pub operation: BlendOperation,
}

impl BlendComponent {
    /// The equation that replaces the destination by the source.
    pub open spec fn replace_spec() -> BlendComponent {
        BlendComponent {
            src_factor: BlendFactor::One,
            dst_factor: BlendFactor::Zero,
            operation: BlendOperation::Add,
        }
    }

    /// The equation that replaces the destination by the source.
    pub fn replace() -> (c: BlendComponent)
        ensures
            c == Self::replace_spec(),
    {
        BlendComponent {
            src_factor: BlendFactor::One,
            dst_factor: BlendFactor::Zero,
            operation: BlendOperation::Add,
        }
    }

    /// The equation that lays the source over the destination by the
    /// source's alpha.
    pub open spec fn alpha_over_spec() -> BlendComponent {
        BlendComponent {
            src_factor: BlendFactor::SrcAlpha,
            dst_factor: BlendFactor::OneMinusSrcAlpha,
            operation: BlendOperation::Add,
        }
    }

    /// The equation that lays the source over the destination by the
    /// source's alpha.
    pub fn alpha_over() -> (c: BlendComponent)
        ensures
            c == Self::alpha_over_spec(),
    {
        BlendComponent {
            src_factor: BlendFactor::SrcAlpha,
            dst_factor: BlendFactor::OneMinusSrcAlpha,
            operation: BlendOperation::Add,
        }
    }
}

/// How a fragment is combined with what is in the target.
#[derive(Clone, Copy, Debug, PartialEq, Eq, Structural)]
pub struct BlendState {
    pub color: BlendComponent,
    pub alpha: BlendComponent,
}

/// The channels of a target that a pipeline writes.
#[derive(Clone, Copy, Debug, PartialEq, Eq, Structural)]
pub struct ColorWrites {
    pub red: bool,
    pub green: bool,
    pub blue: bool,
    pub alpha: bool,
}

impl ColorWrites {
    /// All four channels.
    pub open spec fn all_spec() -> ColorWrites {
        ColorWrites { red: true, green: true, blue: true, alpha: true }
    }

    /// All four channels.
    pub fn all() -> (w: ColorWrites)
        ensures
            w == Self::all_spec(),
    {
        ColorWrites { red: true, green: true, blue: true, alpha: true }
    }
}

/// One colour target of a render pipeline.
#[derive(Clone, Copy, Debug, PartialEq, Eq, Structural)]
pub struct ColorTargetState {
    pub format: TextureFormat,
    pub blend: Option<BlendState>,
    pub write_mask: ColorWrites,
}

/// What a binding of a bind group holds.
#[derive(Clone, Copy, Debug, PartialEq, Eq, Structural)]
pub enum BindingType {
    /// A uniform buffer of which a shader sees at least `min_binding_size`
    /// bytes.
    UniformBuffer { has_dynamic_offset: bool, min_binding_size: u64 },
    /// A two-dimensional texture of floats that can be filtered.
    Texture,
    /// A filtering sampler.
    Sampler,
}

/// One binding of a bind group layout.
#[derive(Clone, Copy, Debug, PartialEq, Eq, Structural)]
pub struct BindGroupLayoutEntry {
    pub binding: u32,
    pub visibility: ShaderStages,
    pub ty: BindingType,
}

/// The layout of a bind group.
#[derive(Clone)]
pub struct BindGroupLayoutDescriptor<'a> {
    pub label: Option<&'a str>,
    pub entries: Vec<BindGroupLayoutEntry>,
}

/// A range of push constants.
#[derive(Clone, Copy, Debug, PartialEq, Eq, Structural)]
pub struct PushConstantRange {
    pub stages: ShaderStages,
    pub start: u32,
    pub end: u32,
}

/// A shader module in WGSL.
#[derive(Clone, Copy)]
pub struct ShaderModuleDescriptor<'a> {
    pub label: Option<&'a str>,
    pub source: &'a str,
}

/// The bind group layouts and push constants of a pipeline.
#[derive(Clone)]
pub struct PipelineLayoutDescriptor<'a> {
    pub label: Option<&'a str>,
    pub bind_group_layouts: Vec<BindGroupLayoutDescriptor<'a>>,
    pub push_constant_ranges: Vec<PushConstantRange>,
}

/// How primitives are assembled and rasterised.
#[derive(Clone, Copy, Debug, PartialEq, Eq, Structural)]
pub struct PrimitiveState {
    pub topology: PrimitiveTopology,
    pub front_face: FrontFace,
    pub cull_mode: Option<Face>,
    pub polygon_mode: PolygonMode,
    pub unclipped_depth: bool,
    pub conservative: bool,
}

/// The multisampling of a render pipeline.
#[derive(Clone, Copy, Debug, PartialEq, Eq, Structural)]
pub struct MultisampleState {
    pub count: u32,
    pub mask: u64,
    pub alpha_to_coverage_enabled: bool,
}

/// The primitive state of a pipeline with the given topology: front faces
/// wind counter-clockwise, back faces are culled, and polygons are filled
/// unless a wireframe is asked for.
pub open spec fn primitive_state_spec(topology: PrimitiveTopology, wireframe: bool) -> PrimitiveState {
    PrimitiveState {
        topology,
        front_face: FrontFace::Ccw,
        cull_mode: Some(Face::Back),
        polygon_mode: if wireframe {
            PolygonMode::Line
        } else {
            PolygonMode::Fill
        },
        unclipped_depth: false,
        conservative: false,
    }
}

/// One sample per pixel, all of them written.
pub open spec fn single_sample_spec() -> MultisampleState {
    MultisampleState { count: 1, mask: u64::MAX, alpha_to_coverage_enabled: false }
}

/// A render pipeline: one shader module with a vertex and a fragment entry
/// point, no depth or stencil test.
#[derive(Clone)]
pub struct RenderPipelineDescriptor<'a> {
    pub label: Option<&'a str>,
    pub layout: PipelineLayoutDescriptor<'a>,
    pub shader: ShaderModuleDescriptor<'a>,
    pub vs_entry_point: &'a str,
    pub fs_entry_point: &'a str,
    pub buffers: Vec<VertexBufferLayout>,
    pub targets: Vec<Option<ColorTargetState>>,
    pub primitive: PrimitiveState,
    pub multisample: MultisampleState,
}

/// A compute pipeline: one shader module with one entry point.
#[derive(Clone)]
pub struct ComputePipelineDescriptor<'a> {
    pub label: Option<&'a str>,
    pub layout: PipelineLayoutDescriptor<'a>,
    pub shader: ShaderModuleDescriptor<'a>,
    pub entry_point: &'a str,
}

/// Collects the parts of a render pipeline.
#[derive(Clone)]
pub struct RenderPipelineBuilder<'a> {
    pub shader_module_descriptor: Option<ShaderModuleDescriptor<'a>>,
    pub pipeline_layout_descriptor: Option<PipelineLayoutDescriptor<'a>>,
    pub wireframe: bool,
    pub topology: PrimitiveTopology,
    pub vertex_buffer_layouts: Vec<VertexBufferLayout>,
    pub color_target_states: Vec<Option<ColorTargetState>>,
}

impl<'a> RenderPipelineBuilder<'a> {
    /// A builder without a shader or a layout, for filled triangle lists.
    pub fn new() -> (b: Self)
        ensures
            b.shader_module_descriptor is None,
            b.pipeline_layout_descriptor is None,
            !b.wireframe,
            b.topology == PrimitiveTopology::TriangleList,
            b.vertex_buffer_layouts@ == Seq::<VertexBufferLayout>::empty(),
            b.color_target_states@ == Seq::<Option<ColorTargetState>>::empty(),
    {
        RenderPipelineBuilder {
            shader_module_descriptor: None,
            pipeline_layout_descriptor: None,
            wireframe: false,
            topology: PrimitiveTopology::TriangleList,
            vertex_buffer_layouts: Vec::new(),
            color_target_states: Vec::new(),
        }
    }

    /// Sets the shader module.
    pub fn shader(self, shader_module_descriptor: ShaderModuleDescriptor<'a>) -> (b: Self)
        ensures
            b.shader_module_descriptor == Some(shader_module_descriptor),
            b.pipeline_layout_descriptor == self.pipeline_layout_descriptor,
            b.wireframe == self.wireframe,
            b.topology == self.topology,
            b.vertex_buffer_layouts == self.vertex_buffer_layouts,
            b.color_target_states == self.color_target_states,
    {
        let mut b = self;
        b.shader_module_descriptor = Some(shader_module_descriptor);
        b
    }

    /// Sets the pipeline layout.
    pub fn pipeline_layout_descriptor(
        self,
        label: &'a str,
        bind_group_layouts: Vec<BindGroupLayoutDescriptor<'a>>,
        push_constant_ranges: Vec<PushConstantRange>,
    ) -> (b: Self)
        ensures
            b.pipeline_layout_descriptor == Some(
                PipelineLayoutDescriptor {
                    label: Some(label),
                    bind_group_layouts,
                    push_constant_ranges,
                },
            ),
            b.shader_module_descriptor == self.shader_module_descriptor,
            b.wireframe == self.wireframe,
            b.topology == self.topology,
            b.vertex_buffer_layouts == self.vertex_buffer_layouts,
            b.color_target_states == self.color_target_states,
    {
        let mut b = self;
        b.pipeline_layout_descriptor = Some(
            PipelineLayoutDescriptor { label: Some(label), bind_group_layouts, push_constant_ranges },
        );
        b
    }

    /// Asks for polygons to be drawn as outlines.
    pub fn with_wireframe(self) -> (b: Self)
        ensures
            b.wireframe,
            b.shader_module_descriptor == self.shader_module_descriptor,
            b.pipeline_layout_descriptor == self.pipeline_layout_descriptor,
            b.topology == self.topology,
            b.vertex_buffer_layouts == self.vertex_buffer_layouts,
            b.color_target_states == self.color_target_states,
    {
        let mut b = self;
        b.wireframe = true;
        b
    }

    /// Sets the topology.
    pub fn with_topology(self, topology: PrimitiveTopology) -> (b: Self)
        ensures
            b.topology == topology,
            b.shader_module_descriptor == self.shader_module_descriptor,
            b.pipeline_layout_descriptor == self.pipeline_layout_descriptor,
            b.wireframe == self.wireframe,
            b.vertex_buffer_layouts == self.vertex_buffer_layouts,
            b.color_target_states == self.color_target_states,
    {
        let mut b = self;
        b.topology = topology;
        b
    }

    /// Appends the layout of a buffer of vertices of type `V`.
    pub fn add_vertex_buffer_layout<V: VertexDescriptor>(self) -> (b: Self)
        ensures
            b.vertex_buffer_layouts@.len() == self.vertex_buffer_layouts@.len() + 1,
            b.vertex_buffer_layouts@.drop_last() == self.vertex_buffer_layouts@,
            b.vertex_buffer_layouts@.last()@ == V::desc_spec(),
            b.shader_module_descriptor == self.shader_module_descriptor,
            b.pipeline_layout_descriptor == self.pipeline_layout_descriptor,
            b.wireframe == self.wireframe,
            b.topology == self.topology,
            b.color_target_states == self.color_target_states,
    {
        let mut b = self;
        b.vertex_buffer_layouts.push(V::desc());
        assert(b.vertex_buffer_layouts@.drop_last() =~= self.vertex_buffer_layouts@);
        b
    }

    /// Appends a colour target.
    pub fn add_color_target_state(self, color_target_state: ColorTargetState) -> (b: Self)
        ensures
            b.color_target_states@ == self.color_target_states@.push(Some(color_target_state)),
            b.shader_module_descriptor == self.shader_module_descriptor,
            b.pipeline_layout_descriptor == self.pipeline_layout_descriptor,
            b.wireframe == self.wireframe,
            b.topology == self.topology,
            b.vertex_buffer_layouts == self.vertex_buffer_layouts,
    {
        let mut b = self;
        b.color_target_states.push(Some(color_target_state));
        b
    }

    /// The description of the pipeline that was put together.
    ///
    /// Front faces wind counter-clockwise, back faces are culled, polygons
    /// are filled unless a wireframe was asked for, and there is one sample
    /// per pixel.
    pub fn build(self, pipeline_label: &'a str, vs_entry_point: &'a str, fs_entry_point: &'a str) -> (d:
        RenderPipelineDescriptor<'a>)
        requires
            self.shader_module_descriptor is Some,
            self.pipeline_layout_descriptor is Some,
        ensures
            d.label == Some(pipeline_label),
            d.layout == self.pipeline_layout_descriptor->0,
            d.shader == self.shader_module_descriptor->0,
            d.vs_entry_point == vs_entry_point,
            d.fs_entry_point == fs_entry_point,
            d.buffers == self.vertex_buffer_layouts,
            d.targets == self.color_target_states,
            d.primitive == primitive_state_spec(self.topology, self.wireframe),
            d.multisample == single_sample_spec(),
    {
        let shader = self.shader_module_descriptor.unwrap();
        let layout = self.pipeline_layout_descriptor.unwrap();
        RenderPipelineDescriptor {
            label: Some(pipeline_label),
            layout,
            shader,
            vs_entry_point,
            fs_entry_point,
            buffers: self.vertex_buffer_layouts,
            targets: self.color_target_states,
            primitive: PrimitiveState {
                topology: self.topology,
                front_face: FrontFace::Ccw,
                cull_mode: Some(Face::Back),
                polygon_mode: if self.wireframe {
                    PolygonMode::Line
                } else {
                    PolygonMode::Fill
                },
                unclipped_depth: false,
                conservative: false,
            },
            multisample: MultisampleState {
                count: 1,
                mask: u64::MAX,
                alpha_to_coverage_enabled: false,
            },
        }
    }
}

/// Collects the parts of a compute pipeline.
#[derive(Clone)]
pub struct ComputePipelineBuilder<'a> {
    pub shader_module_descriptor: Option<ShaderModuleDescriptor<'a>>,
    pub pipeline_layout_descriptor: Option<PipelineLayoutDescriptor<'a>>,
}

impl<'a> ComputePipelineBuilder<'a> {
    /// A builder without a shader or a layout.
    pub fn new() -> (b: Self)
        ensures
            b.shader_module_descriptor is None,
            b.pipeline_layout_descriptor is None,
    {
        ComputePipelineBuilder { shader_module_descriptor: None, pipeline_layout_descriptor: None }
    }

    /// Sets the shader module.
    pub fn shader(self, shader_module_descriptor: ShaderModuleDescriptor<'a>) -> (b: Self)
        ensures
            b.shader_module_descriptor == Some(shader_module_descriptor),
            b.pipeline_layout_descriptor == self.pipeline_layout_descriptor,
    {
        let mut b = self;
        b.shader_module_descriptor = Some(shader_module_descriptor);
        b
    }

    /// Sets the pipeline layout.
    pub fn pipeline_layout_descriptor(
        self,
        label: &'a str,
        bind_group_layouts: Vec<BindGroupLayoutDescriptor<'a>>,
        push_constant_ranges: Vec<PushConstantRange>,
    ) -> (b: Self)
        ensures
            b.pipeline_layout_descriptor == Some(
                PipelineLayoutDescriptor {
                    label: Some(label),
                    bind_group_layouts,
                    push_constant_ranges,
                },
            ),
            b.shader_module_descriptor == self.shader_module_descriptor,
    {
        let mut b = self;
        b.pipeline_layout_descriptor = Some(
            PipelineLayoutDescriptor { label: Some(label), bind_group_layouts, push_constant_ranges },
        );
        b
    }

    /// The description of the pipeline that was put together.
    pub fn build(self, pipeline_label: &'a str, entry_point: &'a str) -> (d: ComputePipelineDescriptor<
        'a,
    >)
        requires
            self.shader_module_descriptor is Some,
            self.pipeline_layout_descriptor is Some,
        ensures
            d.label == Some(pipeline_label),
            d.layout == self.pipeline_layout_descriptor->0,
            d.shader == self.shader_module_descriptor->0,
            d.entry_point == entry_point,
    {
        let shader = self.shader_module_descriptor.unwrap();
        let layout = self.pipeline_layout_descriptor.unwrap();
        ComputePipelineDescriptor { label: Some(pipeline_label), layout, shader, entry_point }
    }
}

} // verus!
