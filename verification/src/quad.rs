//! Textured quads: the pending requests of a frame, their place in the
//! uniform buffers, and their draw calls.

use vstd::prelude::*;
use crate::geometry::Color;
use crate::geometry::Projection;
use crate::geometry::TransformComponent;
use crate::align::padded_stride_spec;
use crate::layout::slot_fault;
use crate::layout::uniform_slot_spec;
use crate::layout::SetupError;
use crate::layout::ShaderStages;
use crate::layout::UniformSlot;
use crate::pipeline::PrimitiveTopology;
use crate::pipeline::RenderPipelineDescriptor;
use crate::pipeline::VertexDescriptor;
use crate::resources::builtin_pipeline;
use crate::resources::describes_pipeline;
use crate::resources::uniform_bind_group_layout;
use crate::resources::uniform_layout_entries_spec;
use crate::resources::PipelineLabels;
use crate::texture::TextureFormat;
use crate::mesh::QuadVertex;
use crate::pipeline::BindGroupLayoutDescriptor;
use crate::resources::alpha_over_target;
use crate::resources::alpha_over_target_spec;
use crate::resources::texture_bind_group_layout;
use crate::resources::texture_layout_entries_spec;
use crate::mesh::quad_vertices;
use crate::mesh::quad_mesh_spec;
use crate::plan::instance_capacity_spec;
use crate::plan::lemma_slot_in_buffer;
use crate::plan::overflow_fault;
use crate::plan::slot_offset;
use crate::plan::slot_offset_spec;
use crate::plan::DrawCall;
use crate::plan::FrameError;
use crate::plan::PrimitiveKind;
use crate::plan::UniformData;
use crate::plan::UploadWrite;
use crate::registry::ids_well_formed;
use crate::registry::lemma_fallback_resolves;
use crate::registry::resolved_slot;
use crate::registry::TextureMap;

verus! {

/// The number of slots in each uniform buffer of the quad pipeline.
pub const QUAD_MAX_INSTANCES: u32 = 40;

/// The size in bytes of a colour in a uniform buffer.
pub const COLOR_UNIFORM_SIZE: u32 = 16;

/// The size in bytes of a 4x4 matrix in a uniform buffer.
pub const TRANSFORM_UNIFORM_SIZE: u32 = 64;

/// One request to draw a quad.
pub struct QuadInfo {
    pub transform: TransformComponent,
    pub color: Color,
    pub texture_name: Option<String>,
}

/// A [`QuadInfo`] as a mathematical value.
pub struct QuadModel {
    pub transform: TransformComponent,
    pub color: Color,
    pub texture_name: Option<Seq<char>>,
}

impl View for QuadInfo {
    type V = QuadModel;

    open spec fn view(&self) -> QuadModel {
        QuadModel {
            transform: self.transform,
            color: self.color,
            texture_name: match self.texture_name {
                Some(name) => Some(name@),
                None => None,
            },
        }
    }
}

/// The `k`-th write of a frame's quads: the colour and the matrix of each
/// quad in turn, each into the slot of the quad in its buffer.
pub open spec fn quad_upload_at(
    quads: Seq<QuadModel>,
    projection: Projection,
    color_slot: UniformSlot,
    transform_slot: UniformSlot,
    k: int,
) -> UploadWrite {
    let i = k / 2;
    if k % 2 == 0 {
        UploadWrite {
            kind: PrimitiveKind::Quad,
            binding: color_slot.binding,
            offset: slot_offset_spec(i as nat, color_slot.stride as nat) as u64,
            data: UniformData::Color(quads[i].color),
        }
    } else {
        UploadWrite {
            kind: PrimitiveKind::Quad,
            binding: transform_slot.binding,
            offset: slot_offset_spec(i as nat, transform_slot.stride as nat) as u64,
            data: UniformData::Matrix(quads[i].transform.model_spec(projection)),
        }
    }
}

/// The writes of a frame's quads, in the order of submission.
pub open spec fn quad_uploads(
    quads: Seq<QuadModel>,
    projection: Projection,
    color_slot: UniformSlot,
    transform_slot: UniformSlot,
) -> Seq<UploadWrite> {
    Seq::new(
        2 * quads.len(),
        |k: int| quad_upload_at(quads, projection, color_slot, transform_slot, k),
    )
}

/// The draw call of the `i`-th quad of a frame.
pub open spec fn quad_draw_at(
    quads: Seq<QuadModel>,
    ids: Seq<Seq<char>>,
    color_slot: UniformSlot,
    transform_slot: UniformSlot,
    i: int,
) -> DrawCall {
    DrawCall::Quad {
        texture: resolved_slot(ids, quads[i].texture_name).unwrap() as usize,
        color_offset: slot_offset_spec(i as nat, color_slot.stride as nat) as u32,
        transform_offset: slot_offset_spec(i as nat, transform_slot.stride as nat) as u32,
    }
}

/// The draw calls of a frame's quads, in the order of submission.
pub open spec fn quad_draws(
    quads: Seq<QuadModel>,
    ids: Seq<Seq<char>>,
    color_slot: UniformSlot,
    transform_slot: UniformSlot,
) -> Seq<DrawCall> {
    Seq::new(quads.len(), |i: int| quad_draw_at(quads, ids, color_slot, transform_slot, i))
}

/// Submitting `quads` in this order and draining them gives, for each of the
/// two buffers, one write per quad, at one, two, three, ... strides into the
/// buffer, in the order of submission: the quad with index `i` has its
/// colour in write `2 * i` and its matrix in write `2 * i + 1`, and every
/// write ends inside its buffer.
pub proof fn lemma_quad_uploads_round_trip(
    quads: Seq<QuadModel>,
    projection: Projection,
    alignment: u32,
)
    requires
        slot_fault(COLOR_UNIFORM_SIZE, alignment, QUAD_MAX_INSTANCES) is None,
        slot_fault(TRANSFORM_UNIFORM_SIZE, alignment, QUAD_MAX_INSTANCES) is None,
        quads.len() <= instance_capacity_spec(QUAD_MAX_INSTANCES as nat),
    ensures
        ({
            let color_slot = uniform_slot_spec(
                0,
                ShaderStages::Fragment,
                COLOR_UNIFORM_SIZE,
                COLOR_UNIFORM_SIZE,
                alignment,
                QUAD_MAX_INSTANCES,
            );
            let transform_slot = uniform_slot_spec(
                1,
                ShaderStages::VertexFragment,
                TRANSFORM_UNIFORM_SIZE,
                TRANSFORM_UNIFORM_SIZE,
                alignment,
                QUAD_MAX_INSTANCES,
            );
            let writes = quad_uploads(quads, projection, color_slot, transform_slot);
            &&& writes.len() == 2 * quads.len()
            &&& forall|i: int|
                0 <= i < quads.len() ==> {
                    &&& (#[trigger] writes[2 * i]).binding == 0
                    &&& writes[2 * i].offset == (i + 1) * color_slot.stride
                    &&& writes[2 * i].offset + COLOR_UNIFORM_SIZE <= color_slot.buffer_size
                    &&& writes[2 * i].data == UniformData::Color(quads[i].color)
                }
            &&& forall|i: int|
                0 <= i < quads.len() ==> {
                    &&& (#[trigger] writes[2 * i + 1]).binding == 1
                    &&& writes[2 * i + 1].offset == (i + 1) * transform_slot.stride
                    &&& writes[2 * i + 1].offset + TRANSFORM_UNIFORM_SIZE
                        <= transform_slot.buffer_size
                    &&& writes[2 * i + 1].data == UniformData::Matrix(
                        quads[i].transform.model_spec(projection),
                    )
                }
        }),
{
    let color_slot = uniform_slot_spec(
        0,
        ShaderStages::Fragment,
        COLOR_UNIFORM_SIZE,
        COLOR_UNIFORM_SIZE,
        alignment,
        QUAD_MAX_INSTANCES,
    );
    let transform_slot = uniform_slot_spec(
        1,
        ShaderStages::VertexFragment,
        TRANSFORM_UNIFORM_SIZE,
        TRANSFORM_UNIFORM_SIZE,
        alignment,
        QUAD_MAX_INSTANCES,
    );
    let writes = quad_uploads(quads, projection, color_slot, transform_slot);
    crate::align::lemma_padded_stride_bounds(COLOR_UNIFORM_SIZE as nat, alignment as nat);
    crate::align::lemma_padded_stride_bounds(TRANSFORM_UNIFORM_SIZE as nat, alignment as nat);
    assert forall|i: int| 0 <= i < quads.len() implies {
        &&& (#[trigger] writes[2 * i]).binding == 0
        &&& writes[2 * i].offset == (i + 1) * color_slot.stride
        &&& writes[2 * i].offset + COLOR_UNIFORM_SIZE <= color_slot.buffer_size
        &&& writes[2 * i].data == UniformData::Color(quads[i].color)
    } by {
        lemma_slot_in_buffer(i as nat, color_slot.stride as nat, QUAD_MAX_INSTANCES as nat);
    }
    assert forall|i: int| 0 <= i < quads.len() implies {
        &&& (#[trigger] writes[2 * i + 1]).binding == 1
        &&& writes[2 * i + 1].offset == (i + 1) * transform_slot.stride
        &&& writes[2 * i + 1].offset + TRANSFORM_UNIFORM_SIZE <= transform_slot.buffer_size
        &&& writes[2 * i + 1].data == UniformData::Matrix(
            quads[i].transform.model_spec(projection),
        )
    } by {
        lemma_slot_in_buffer(i as nat, transform_slot.stride as nat, QUAD_MAX_INSTANCES as nat);
    }
}

/// A draw call reads what the upload wrote: the dynamic offsets of the call
/// of the quad with index `i` are the offsets of the two writes of that
/// quad, in the order of the bindings, and what the shader is bound to at
/// each offset ends inside the buffer.
pub proof fn lemma_quad_draw_reads_upload(
    quads: Seq<QuadModel>,
    ids: Seq<Seq<char>>,
    projection: Projection,
    alignment: u32,
    i: int,
)
    requires
        slot_fault(COLOR_UNIFORM_SIZE, alignment, QUAD_MAX_INSTANCES) is None,
        slot_fault(TRANSFORM_UNIFORM_SIZE, alignment, QUAD_MAX_INSTANCES) is None,
        quads.len() <= instance_capacity_spec(QUAD_MAX_INSTANCES as nat),
        0 <= i < quads.len(),
    ensures
        ({
            let color_slot = uniform_slot_spec(
                0,
                ShaderStages::Fragment,
                COLOR_UNIFORM_SIZE,
                COLOR_UNIFORM_SIZE,
                alignment,
                QUAD_MAX_INSTANCES,
            );
            let transform_slot = uniform_slot_spec(
                1,
                ShaderStages::VertexFragment,
                TRANSFORM_UNIFORM_SIZE,
                TRANSFORM_UNIFORM_SIZE,
                alignment,
                QUAD_MAX_INSTANCES,
            );
            let writes = quad_uploads(quads, projection, color_slot, transform_slot);
            let call = quad_draws(quads, ids, color_slot, transform_slot)[i];
            &&& call.dynamic_offsets_spec().len() == 2
            &&& call.dynamic_offsets_spec()[0] == writes[2 * i].offset
            &&& call.dynamic_offsets_spec()[1] == writes[2 * i + 1].offset
            &&& writes[2 * i].binding == 0
            &&& writes[2 * i + 1].binding == 1
            &&& call.dynamic_offsets_spec()[0] + color_slot.min_binding_size
                <= color_slot.buffer_size
            &&& call.dynamic_offsets_spec()[1] + transform_slot.min_binding_size
                <= transform_slot.buffer_size
        }),
{
    lemma_quad_uploads_round_trip(quads, projection, alignment);
    let color_slot = uniform_slot_spec(
        0,
        ShaderStages::Fragment,
        COLOR_UNIFORM_SIZE,
        COLOR_UNIFORM_SIZE,
        alignment,
        QUAD_MAX_INSTANCES,
    );
    let transform_slot = uniform_slot_spec(
        1,
        ShaderStages::VertexFragment,
        TRANSFORM_UNIFORM_SIZE,
        TRANSFORM_UNIFORM_SIZE,
        alignment,
        QUAD_MAX_INSTANCES,
    );
    let writes = quad_uploads(quads, projection, color_slot, transform_slot);
    assert(writes[2 * i].offset == (i + 1) * color_slot.stride);
    assert(writes[2 * i + 1].offset == (i + 1) * transform_slot.stride);
    lemma_slot_in_buffer(i as nat, color_slot.stride as nat, QUAD_MAX_INSTANCES as nat);
    lemma_slot_in_buffer(i as nat, transform_slot.stride as nat, QUAD_MAX_INSTANCES as nat);
}

/// Whether every quad has a slot and a texture: no more quads are pending
/// than the buffers hold, and every texture name resolves.
pub open spec fn quads_drawable(quads: Seq<QuadModel>, ids: Seq<Seq<char>>) -> bool {
    &&& quads.len() <= instance_capacity_spec(QUAD_MAX_INSTANCES as nat)
    &&& forall|i: int|
        0 <= i < quads.len() ==> resolved_slot(ids, #[trigger] quads[i].texture_name) is Some
}

/// Whether `e` is the error of drawing the quads: `CapacityOverflow` where
/// more quads are pending than the buffers hold, and else `UnknownTexture`
/// with the index of the first quad whose texture name does not resolve.
pub open spec fn quad_draw_fault(quads: Seq<QuadModel>, ids: Seq<Seq<char>>, e: FrameError) -> bool {
    match e {
        FrameError::CapacityOverflow { kind, submitted, capacity } => {
            &&& quads.len() > instance_capacity_spec(QUAD_MAX_INSTANCES as nat)
            &&& kind == PrimitiveKind::Quad
            &&& submitted == quads.len()
            &&& capacity == instance_capacity_spec(QUAD_MAX_INSTANCES as nat)
        },
        FrameError::UnknownTexture { quad } => {
            &&& quads.len() <= instance_capacity_spec(QUAD_MAX_INSTANCES as nat)
            &&& quad < quads.len()
            &&& resolved_slot(ids, quads[quad as int].texture_name) is None
            &&& forall|i: int|
                0 <= i < quad ==> resolved_slot(ids, #[trigger] quads[i].texture_name) is Some
        },
    }
}

/// The labels of the quad pipeline.
pub open spec fn quad_labels() -> PipelineLabels<'static> {
    PipelineLabels {
        pipeline: "Quad - Render Pipeline",
        shader: "Builtin Quad Shader",
        layout: "Vertex layout descriptor",
    }
}

/// A quad without a texture name is drawn with the fallback texture, which
/// is in slot 0 of every texture map, and is never the cause of an
/// `UnknownTexture`.
pub proof fn lemma_untextured_quad_draws_fallback(
    quads: Seq<QuadModel>,
    ids: Seq<Seq<char>>,
    color_slot: UniformSlot,
    transform_slot: UniformSlot,
    i: usize,
)
    requires
        ids_well_formed(ids),
        i < quads.len(),
        quads[i as int].texture_name is None,
    ensures
        resolved_slot(ids, quads[i as int].texture_name) == Some(0int),
        quad_draw_at(quads, ids, color_slot, transform_slot, i as int) matches DrawCall::Quad {
            texture,
            ..
        } && texture == 0,
        !quad_draw_fault(quads, ids, FrameError::UnknownTexture { quad: i }),
{
    lemma_fallback_resolves(ids);
}

/// The quads of a frame and the layout of their uniform buffers.
pub struct QuadPipeline {
    quad_info: Vec<QuadInfo>,
    alignment: u32,
    color_slot: UniformSlot,
    transform_slot: UniformSlot,
}

impl QuadPipeline {
    /// The pending requests, in the order of submission.
    pub closed spec fn quads(&self) -> Seq<QuadModel> {
        Seq::new(self.quad_info@.len(), |i: int| self.quad_info@[i]@)
    }

    /// The offset alignment of the device that the pipeline was laid out
    /// for.
    pub closed spec fn spec_alignment(&self) -> u32 {
        self.alignment
    }

    /// The slot of the colours.
    pub closed spec fn spec_color_slot(&self) -> UniformSlot {
        self.color_slot
    }

    /// The slot of the matrices.
    pub closed spec fn spec_transform_slot(&self) -> UniformSlot {
        self.transform_slot
    }

    /// The layout is the one of [`QuadPipeline::new`]: binding 0 holds the
    /// colours for the fragment stage, binding 1 the matrices for both
    /// stages, and every buffer has room for `QUAD_MAX_INSTANCES` strides.
    pub open spec fn well_formed(&self) -> bool {
        &&& slot_fault(COLOR_UNIFORM_SIZE, self.spec_alignment(), QUAD_MAX_INSTANCES) is None
        &&& slot_fault(TRANSFORM_UNIFORM_SIZE, self.spec_alignment(), QUAD_MAX_INSTANCES) is None
        &&& self.spec_color_slot() == uniform_slot_spec(
            0,
            ShaderStages::Fragment,
            COLOR_UNIFORM_SIZE,
            COLOR_UNIFORM_SIZE,
            self.spec_alignment(),
            QUAD_MAX_INSTANCES,
        )
        &&& self.spec_transform_slot() == uniform_slot_spec(
            1,
            ShaderStages::VertexFragment,
            TRANSFORM_UNIFORM_SIZE,
            TRANSFORM_UNIFORM_SIZE,
            self.spec_alignment(),
            QUAD_MAX_INSTANCES,
        )
    }

    /// Why the pipeline cannot be laid out for the given alignment, if it
    /// cannot.
    pub open spec fn setup_fault(min_alignment: u32) -> Option<SetupError> {
        match slot_fault(COLOR_UNIFORM_SIZE, min_alignment, QUAD_MAX_INSTANCES) {
            Some(e) => Some(e),
            None => slot_fault(TRANSFORM_UNIFORM_SIZE, min_alignment, QUAD_MAX_INSTANCES),
        }
    }

    /// Lays the pipeline out for a device whose dynamic offsets must be
    /// multiples of `min_alignment`. No request is pending.
    pub fn new(min_alignment: u32) -> (r: Result<QuadPipeline, SetupError>)
        ensures
            match Self::setup_fault(min_alignment) {
                Some(e) => r is Err && r->Err_0 == e,
                None => r is Ok && r->Ok_0.well_formed() && r->Ok_0.spec_alignment()
                    == min_alignment && r->Ok_0.quads() == Seq::<QuadModel>::empty(),
            },
            r is Ok ==> r->Ok_0.spec_color_slot().stride == padded_stride_spec(
                COLOR_UNIFORM_SIZE as nat,
                min_alignment as nat,
            ),
            r is Ok ==> r->Ok_0.spec_transform_slot().stride == padded_stride_spec(
                TRANSFORM_UNIFORM_SIZE as nat,
                min_alignment as nat,
            ),
            r is Ok ==> r->Ok_0.spec_color_slot().buffer_size == QUAD_MAX_INSTANCES
                * r->Ok_0.spec_color_slot().stride,
            r is Ok ==> r->Ok_0.spec_transform_slot().buffer_size == QUAD_MAX_INSTANCES
                * r->Ok_0.spec_transform_slot().stride,
    {
        let color_slot = match UniformSlot::new(
            0,
            ShaderStages::Fragment,
            COLOR_UNIFORM_SIZE,
            COLOR_UNIFORM_SIZE,
            min_alignment,
            QUAD_MAX_INSTANCES,
        ) {
            Ok(slot) => slot,
            Err(e) => {
                return Err(e);
            },
        };
        let transform_slot = match UniformSlot::new(
            1,
            ShaderStages::VertexFragment,
            TRANSFORM_UNIFORM_SIZE,
            TRANSFORM_UNIFORM_SIZE,
            min_alignment,
            QUAD_MAX_INSTANCES,
        ) {
            Ok(slot) => slot,
            Err(e) => {
                return Err(e);
            },
        };
        let p = QuadPipeline {
            quad_info: Vec::new(),
            alignment: min_alignment,
            color_slot,
            transform_slot,
        };
        assert(p.quads() =~= Seq::<QuadModel>::empty());
        Ok(p)
    }

    /// The slot of the colours.
    #[verifier::when_used_as_spec(spec_color_slot)]
    pub fn color_slot(&self) -> (slot: UniformSlot)
        ensures
            slot == self.spec_color_slot(),
    {
        self.color_slot
    }

    /// The slot of the matrices.
    #[verifier::when_used_as_spec(spec_transform_slot)]
    pub fn transform_slot(&self) -> (slot: UniformSlot)
        ensures
            slot == self.spec_transform_slot(),
    {
        self.transform_slot
    }

    /// The distance in bytes between the colours of two quads.
    pub fn color_uniform_alignment(&self) -> (stride: u64)
        ensures
            stride == self.spec_color_slot().stride,
    {
        self.color_slot.stride
    }

    /// The distance in bytes between the matrices of two quads.
    pub fn transform_uniform_alignment(&self) -> (stride: u64)
        ensures
            stride == self.spec_transform_slot().stride,
    {
        self.transform_slot.stride
    }

    /// The slots of the uniform bind group, in the order of their bindings.
    /// A draw call lists its dynamic offsets in the same order.
    pub fn uniform_slots(&self) -> (slots: Vec<UniformSlot>)
        ensures
            slots@ == seq![self.spec_color_slot(), self.spec_transform_slot()],
    {
        let mut slots: Vec<UniformSlot> = Vec::new();
        slots.push(self.color_slot);
        slots.push(self.transform_slot);
        slots
    }

    /// The layout of the uniform bind group: one entry for each slot.
    pub fn bind_group_layout(&self) -> (layout: BindGroupLayoutDescriptor<'static>)
        ensures
            layout.label is Some && layout.label->0@ == "texture_bind_group_layout"@,
            layout.entries@ == uniform_layout_entries_spec(
                seq![self.spec_color_slot(), self.spec_transform_slot()],
            ),
    {
        let slots = self.uniform_slots();
        uniform_bind_group_layout(Some("texture_bind_group_layout"), &slots)
    }

    /// The layout of the bind group of a quad's texture. Every texture of
    /// the texture map is bound through a group of this layout.
    pub fn texture_bind_group_layout(&self) -> (layout: BindGroupLayoutDescriptor<'static>)
        ensures
            layout.label is Some && layout.label->0@ == "texture_bind_group_layout"@,
            layout.entries@ == texture_layout_entries_spec(),
    {
        texture_bind_group_layout(Some("texture_bind_group_layout"))
    }

    /// The render pipeline of the quads, for a target of the given format:
    /// a list of textured triangles, laid over the target by their alpha,
    /// with the texture in bind group 0 and the uniforms in bind group 1.
    pub fn render_pipeline<'a>(&self, format: TextureFormat, shader_source: &'a str) -> (d:
        RenderPipelineDescriptor<'a>)
        ensures
            describes_pipeline(
                d,
                quad_labels(),
                shader_source@,
                PrimitiveTopology::TriangleList,
                alpha_over_target_spec(format),
                QuadVertex::desc_spec(),
                seq![
                    texture_layout_entries_spec(),
                    uniform_layout_entries_spec(
                        seq![self.spec_color_slot(), self.spec_transform_slot()],
                    ),
                ],
            ),
            forall|i: int|
                0 <= i < 2 ==> (#[trigger] d.layout.bind_group_layouts@[i]).label is Some
                    && d.layout.bind_group_layouts@[i].label->0@ == "texture_bind_group_layout"@,
    {
        let mut groups: Vec<BindGroupLayoutDescriptor<'a>> = Vec::new();
        groups.push(self.texture_bind_group_layout());
        groups.push(self.bind_group_layout());
        let labels = PipelineLabels {
            pipeline: "Quad - Render Pipeline",
            shader: "Builtin Quad Shader",
            layout: "Vertex layout descriptor",
        };
        let d = builtin_pipeline::<QuadVertex>(
            labels,
            shader_source,
            PrimitiveTopology::TriangleList,
            alpha_over_target(format),
            groups,
        );
        assert(d.layout.bind_group_layouts@[0].entries@ == texture_layout_entries_spec());
        assert(d.layout.bind_group_layouts@[1].entries@ == uniform_layout_entries_spec(
            seq![self.spec_color_slot(), self.spec_transform_slot()],
        ));
        d
    }

    /// The static mesh of the pipeline: the unit square about the origin as two textured triangles.
    pub fn vertices(&self) -> (mesh: Vec<QuadVertex>)
        ensures
            mesh@ == quad_mesh_spec(),
    {
        quad_vertices()
    }

    /// The number of pending requests.
    pub fn len(&self) -> (n: usize)
        ensures
            n == self.quads().len(),
    {
        self.quad_info.len()
    }

    /// The pending request with the given index.
    pub fn get(&self, index: usize) -> (q: Option<&QuadInfo>)
        ensures
            q is Some <==> index < self.quads().len(),
            q is Some ==> q->0@ == self.quads()[index as int],
    {
        if index < self.quad_info.len() {
            Some(&self.quad_info[index])
        } else {
            None
        }
    }

    /// Appends a request. Nothing is uploaded or drawn.
    pub fn push(&mut self, info: QuadInfo)
        ensures
            final(self).quads() == old(self).quads().push(info@),
            final(self).spec_alignment() == old(self).spec_alignment(),
            final(self).spec_color_slot() == old(self).spec_color_slot(),
            final(self).spec_transform_slot() == old(self).spec_transform_slot(),
    {
        let ghost before = self.quads();
        let ghost model = info@;
        self.quad_info.push(info);
        assert(self.quads() =~= before.push(model));
    }

    /// Forgets every pending request.
    pub fn clear(&mut self)
        ensures
            final(self).quads() == Seq::<QuadModel>::empty(),
            final(self).spec_alignment() == old(self).spec_alignment(),
            final(self).spec_color_slot() == old(self).spec_color_slot(),
            final(self).spec_transform_slot() == old(self).spec_transform_slot(),
    {
        self.quad_info.clear();
        assert(self.quads() =~= Seq::<QuadModel>::empty());
    }

    /// The writes that put every pending quad into the uniform buffers: for
    /// the quad with index `i`, its colour and then its matrix, each at
    /// `(i + RESERVED_SLOT_COUNT)` strides into its buffer.
    ///
    /// Fails with `CapacityOverflow` exactly where more quads are pending
    /// than the buffers hold.
    pub fn upload_writes(&self, projection: Projection) -> (r: Result<Vec<UploadWrite>, FrameError>)
        requires
            self.well_formed(),
        ensures
            match overflow_fault(PrimitiveKind::Quad, self.quads().len(), QUAD_MAX_INSTANCES as nat) {
                Some(e) => r == Err::<Vec<UploadWrite>, FrameError>(e),
                None => r is Ok && r->Ok_0@ == quad_uploads(
                    self.quads(),
                    projection,
                    self.spec_color_slot(),
                    self.spec_transform_slot(),
                ),
            },
    {
        let n: usize = self.quad_info.len();
        let capacity: u64 = (QUAD_MAX_INSTANCES - 1) as u64;
        if n as u64 > capacity {
            return Err(
                FrameError::CapacityOverflow {
                    kind: PrimitiveKind::Quad,
                    submitted: n,
                    capacity,
                },
            );
        }
        let mut writes: Vec<UploadWrite> = Vec::new();
        let mut i: usize = 0;
        while i < n
            invariant
                self.well_formed(),
                n == self.quad_info@.len(),
                n == self.quads().len(),
                n <= instance_capacity_spec(QUAD_MAX_INSTANCES as nat),
                i <= n,
                writes@.len() == 2 * i,
                forall|k: int|
                    0 <= k < 2 * i ==> writes@[k] == quad_upload_at(
                        self.quads(),
                        projection,
                        self.spec_color_slot(),
                        self.spec_transform_slot(),
                        k,
                    ),
            decreases n - i,
        {
            proof {
                lemma_slot_in_buffer(
                    i as nat,
                    self.color_slot.stride as nat,
                    QUAD_MAX_INSTANCES as nat,
                );
                lemma_slot_in_buffer(
                    i as nat,
                    self.transform_slot.stride as nat,
                    QUAD_MAX_INSTANCES as nat,
                );
            }
            let quad = &self.quad_info[i];
            assert(quad@ == self.quads()[i as int]);
            let color_offset: u64 = slot_offset(i, self.color_slot.stride);
            let transform_offset: u64 = slot_offset(i, self.transform_slot.stride);
            writes.push(
                UploadWrite {
                    kind: PrimitiveKind::Quad,
                    binding: self.color_slot.binding,
                    offset: color_offset,
                    data: UniformData::Color(quad.color),
                },
            );
            writes.push(
                UploadWrite {
                    kind: PrimitiveKind::Quad,
                    binding: self.transform_slot.binding,
                    offset: transform_offset,
                    data: UniformData::Matrix(quad.transform.model(projection)),
                },
            );
            i += 1;
        }
        assert(writes@ =~= quad_uploads(
            self.quads(),
            projection,
            self.spec_color_slot(),
            self.spec_transform_slot(),
        ));
        Ok(writes)
    }

    /// The draw calls of the pending quads, in the order of submission: for
    /// the quad with index `i`, six vertices with the dynamic offsets of its
    /// slot and the texture that its name resolves to, or the fallback
    /// texture where it has no name.
    ///
    /// Fails with `CapacityOverflow` exactly where more quads are pending
    /// than the buffers hold, and else with `UnknownTexture` for the first
    /// quad whose texture name was never registered.
    pub fn draw_calls(&self, texture_map: &TextureMap) -> (r: Result<Vec<DrawCall>, FrameError>)
        requires
            self.well_formed(),
            texture_map.well_formed(),
        ensures
            match r {
                Ok(calls) => quads_drawable(self.quads(), texture_map.ids()) && calls@
                    == quad_draws(
                    self.quads(),
                    texture_map.ids(),
                    self.spec_color_slot(),
                    self.spec_transform_slot(),
                ),
                Err(e) => quad_draw_fault(self.quads(), texture_map.ids(), e),
            },
    {
        let n: usize = self.quad_info.len();
        let capacity: u64 = (QUAD_MAX_INSTANCES - 1) as u64;
        if n as u64 > capacity {
            return Err(
                FrameError::CapacityOverflow {
                    kind: PrimitiveKind::Quad,
                    submitted: n,
                    capacity,
                },
            );
        }
        let mut calls: Vec<DrawCall> = Vec::new();
        let mut i: usize = 0;
        while i < n
            invariant
                self.well_formed(),
                texture_map.well_formed(),
                n == self.quad_info@.len(),
                n == self.quads().len(),
                n <= instance_capacity_spec(QUAD_MAX_INSTANCES as nat),
                i <= n,
                calls@.len() == i,
                forall|k: int|
                    0 <= k < i ==> resolved_slot(
                        texture_map.ids(),
                        #[trigger] self.quads()[k].texture_name,
                    ) is Some,
                forall|k: int|
                    0 <= k < i ==> calls@[k] == quad_draw_at(
                        self.quads(),
                        texture_map.ids(),
                        self.spec_color_slot(),
                        self.spec_transform_slot(),
                        k,
                    ),
            decreases n - i,
        {
            proof {
                lemma_slot_in_buffer(
                    i as nat,
                    self.color_slot.stride as nat,
                    QUAD_MAX_INSTANCES as nat,
                );
                lemma_slot_in_buffer(
                    i as nat,
                    self.transform_slot.stride as nat,
                    QUAD_MAX_INSTANCES as nat,
                );
            }
            let quad = &self.quad_info[i];
            assert(quad@ == self.quads()[i as int]);
            let texture: usize = match texture_map.resolve(&quad.texture_name) {
                Ok(slot) => slot,
                Err(_) => {
                    return Err(FrameError::UnknownTexture { quad: i });
                },
            };
            let color_offset: u64 = slot_offset(i, self.color_slot.stride);
            let transform_offset: u64 = slot_offset(i, self.transform_slot.stride);
            calls.push(
                DrawCall::Quad {
                    texture,
                    color_offset: color_offset as u32,
                    transform_offset: transform_offset as u32,
                },
            );
            i += 1;
        }
        assert(calls@ =~= quad_draws(
            self.quads(),
            texture_map.ids(),
            self.spec_color_slot(),
            self.spec_transform_slot(),
        ));
        Ok(calls)
    }
}

} // verus!
