//! Circles: the pending requests of a frame, their place in the uniform
//! buffer, and their draw calls.
//!
//! A circle is drawn as a quad whose fragment stage keeps a ring.

use vstd::prelude::*;
use crate::geometry::Color;
use crate::geometry::Projection;
use crate::geometry::Scalar;
use crate::geometry::TransformComponent;
use crate::align::padded_stride_spec;
use crate::layout::lemma_instance_in_buffer;
use crate::layout::slot_fault;
use crate::layout::uniform_slot_spec;
use crate::layout::SetupError;
use crate::layout::ShaderStages;
use crate::layout::UniformSlot;
use crate::pipeline::PrimitiveTopology;
use crate::pipeline::RenderPipelineDescriptor;
use crate::pipeline::VertexDescriptor;
use crate::resources::builtin_pipeline;
use crate::resources::describes_pipeline;
use crate::resources::uniform_bind_group_layout;
use crate::resources::uniform_layout_entries_spec;
use crate::resources::PipelineLabels;
use crate::texture::TextureFormat;
use crate::mesh::PositionVertex;
use crate::pipeline::BindGroupLayoutDescriptor;
use crate::resources::alpha_over_target;
use crate::resources::alpha_over_target_spec;
use crate::mesh::circle_vertices;
use crate::mesh::circle_mesh_spec;
use crate::mesh::circle_indices;
use crate::mesh::circle_indices_spec;
use crate::plan::instance_capacity_spec;
use crate::plan::lemma_slot_in_buffer;
use crate::plan::capacity_fault;
use crate::plan::slot_offset;
use crate::plan::slot_offset_spec;
use crate::plan::CircleUniforms;
use crate::plan::DrawCall;
use crate::plan::FrameError;
use crate::plan::PrimitiveKind;
use crate::plan::UniformData;
use crate::plan::UploadWrite;

verus! {

/// The number of slots in the uniform buffer of the circle pipeline.
pub const CIRCLE_MAX_INSTANCES: u32 = 300000;

/// The size in bytes of one circle in the uniform buffer: a matrix, a
/// colour, and two scalars.
pub const CIRCLE_UNIFORM_SIZE: u32 = 88;

/// The size in bytes that the circle shader assumes for its binding.
pub const CIRCLE_MIN_BINDING_SIZE: u32 = 98;

/// The number of circles that the buffer holds on a device with the given
/// offset alignment. Slot 0 stays free. Where the shader's binding is longer
/// than the stride, the last slot stays free as well, so that the binding of
/// the last circle ends inside the buffer.
pub open spec fn circle_capacity_spec(alignment: u32) -> nat {
    if padded_stride_spec(CIRCLE_UNIFORM_SIZE as nat, alignment as nat)
        >= CIRCLE_MIN_BINDING_SIZE {
        instance_capacity_spec(CIRCLE_MAX_INSTANCES as nat)
    } else {
        (instance_capacity_spec(CIRCLE_MAX_INSTANCES as nat) - 1) as nat
    }
}

/// One request to draw a circle. The radius is in the scale of the
/// transform.
#[derive(Clone, Copy, Debug, PartialEq, Eq, Structural)]
pub struct CircleInfo {
    pub transform: TransformComponent,
    pub color: Color,
    pub thickness: Scalar,
    pub fade: Scalar,
}

/// The data of a circle as it is uploaded.
pub open spec fn circle_uniforms_spec(circle: CircleInfo, projection: Projection) -> CircleUniforms {
    CircleUniforms {
        model: circle.transform.model_spec(projection),
        color: circle.color,
        thickness: circle.thickness,
        fade: circle.fade,
    }
}

/// The write of the `i`-th circle of a frame.
pub open spec fn circle_upload_at(
    circles: Seq<CircleInfo>,
    projection: Projection,
    slot: UniformSlot,
    i: int,
) -> UploadWrite {
    UploadWrite {
        kind: PrimitiveKind::Circle,
        binding: slot.binding,
        offset: slot_offset_spec(i as nat, slot.stride as nat) as u64,
        data: UniformData::Circle(circle_uniforms_spec(circles[i], projection)),
    }
}

/// The writes of a frame's circles, in the order of submission.
pub open spec fn circle_uploads(
    circles: Seq<CircleInfo>,
    projection: Projection,
    slot: UniformSlot,
) -> Seq<UploadWrite> {
    Seq::new(circles.len(), |i: int| circle_upload_at(circles, projection, slot, i))
}

/// The draw call of the `i`-th circle of a frame.
pub open spec fn circle_draw_at(slot: UniformSlot, i: int) -> DrawCall {
    DrawCall::Circle { uniform_offset: slot_offset_spec(i as nat, slot.stride as nat) as u32 }
}

/// The draw calls of `count` circles, in the order of submission.
pub open spec fn circle_draws(count: nat, slot: UniformSlot) -> Seq<DrawCall> {
    Seq::new(count, |i: int| circle_draw_at(slot, i))
}

/// The labels of the circle pipeline.
pub open spec fn circle_labels() -> PipelineLabels<'static> {
    PipelineLabels {
        pipeline: "Circle - Render Pipeline",
        shader: "Circle - Builtin Shader",
        layout: "Circle - Vertex layout descriptor",
    }
}

/// A draw call reads what the upload wrote: the dynamic offset of the call
/// of the circle with index `i` is the offset of the write of that circle,
/// `i + 1` strides into the buffer, where a stride is the size of a circle
/// rounded up to the alignment. Both what is written there and what the
/// shader is bound to there end inside the buffer.
pub proof fn lemma_circle_draw_reads_upload(
    circles: Seq<CircleInfo>,
    projection: Projection,
    alignment: u32,
    i: int,
)
    requires
        slot_fault(CIRCLE_UNIFORM_SIZE, alignment, CIRCLE_MAX_INSTANCES) is None,
        circles.len() <= circle_capacity_spec(alignment),
        0 <= i < circles.len(),
    ensures
        ({
            let slot = uniform_slot_spec(
                0,
                ShaderStages::VertexFragment,
                CIRCLE_UNIFORM_SIZE,
                CIRCLE_MIN_BINDING_SIZE,
                alignment,
                CIRCLE_MAX_INSTANCES,
            );
            let write = circle_uploads(circles, projection, slot)[i];
            let call = circle_draws(circles.len(), slot)[i];
            &&& slot.stride == padded_stride_spec(CIRCLE_UNIFORM_SIZE as nat, alignment as nat)
            &&& slot.stride < CIRCLE_UNIFORM_SIZE + alignment
            &&& call.dynamic_offsets_spec() == seq![write.offset as u32]
            &&& write.offset <= u32::MAX
            &&& write.offset == (i + 1) * slot.stride
            &&& write.offset + write.data.size_spec() <= slot.buffer_size
            &&& write.offset + slot.min_binding_size <= slot.buffer_size
            &&& write.data == UniformData::Circle(circle_uniforms_spec(circles[i], projection))
        }),
{
    lemma_instance_in_buffer(
        CIRCLE_UNIFORM_SIZE,
        CIRCLE_MIN_BINDING_SIZE,
        alignment,
        CIRCLE_MAX_INSTANCES,
        i as nat,
    );
    let stride = padded_stride_spec(CIRCLE_UNIFORM_SIZE as nat, alignment as nat) as int;
    if stride < CIRCLE_MIN_BINDING_SIZE {
        assert((i + 1) * stride + 2 * stride == (i + 3) * stride) by (nonlinear_arith);
        assert((i + 3) * stride <= CIRCLE_MAX_INSTANCES * stride) by (nonlinear_arith)
            requires
                i + 3 <= CIRCLE_MAX_INSTANCES,
                stride >= 0,
        ;
    }
}

/// The capacity is exact: the binding of one more circle would end past the
/// end of the buffer.
pub proof fn lemma_circle_capacity_tight(alignment: u32)
    requires
        slot_fault(CIRCLE_UNIFORM_SIZE, alignment, CIRCLE_MAX_INSTANCES) is None,
    ensures
        ({
            let slot = uniform_slot_spec(
                0,
                ShaderStages::VertexFragment,
                CIRCLE_UNIFORM_SIZE,
                CIRCLE_MIN_BINDING_SIZE,
                alignment,
                CIRCLE_MAX_INSTANCES,
            );
            slot_offset_spec(circle_capacity_spec(alignment), slot.stride as nat)
                + slot.min_binding_size > slot.buffer_size
        }),
{
    let stride = padded_stride_spec(CIRCLE_UNIFORM_SIZE as nat, alignment as nat) as int;
    let capacity = circle_capacity_spec(alignment) as int;
    crate::align::lemma_padded_stride_bounds(CIRCLE_UNIFORM_SIZE as nat, alignment as nat);
    if stride >= CIRCLE_MIN_BINDING_SIZE {
        assert((capacity + 1) * stride == CIRCLE_MAX_INSTANCES * stride) by (nonlinear_arith)
            requires
                capacity + 1 == CIRCLE_MAX_INSTANCES,
        ;
    } else {
        assert((capacity + 1) * stride + stride == CIRCLE_MAX_INSTANCES * stride)
            by (nonlinear_arith)
            requires
                capacity + 2 == CIRCLE_MAX_INSTANCES,
        ;
    }
}

/// The circles of a frame and the layout of their uniform buffer.
pub struct CirclePipeline {
    circle_info: Vec<CircleInfo>,
    alignment: u32,
    circle_slot: UniformSlot,
}

impl CirclePipeline {
    /// The pending requests, in the order of submission.
    pub closed spec fn circles(&self) -> Seq<CircleInfo> {
        self.circle_info@
    }

    /// The offset alignment of the device that the pipeline was laid out
    /// for.
    pub closed spec fn spec_alignment(&self) -> u32 {
        self.alignment
    }

    /// The slot of the circles.
    pub closed spec fn spec_circle_slot(&self) -> UniformSlot {
        self.circle_slot
    }

    /// The layout is the one of [`CirclePipeline::new`]: binding 0 holds
    /// matrix, colour, thickness and fade of each circle for both stages,
    /// and the buffer has room for `CIRCLE_MAX_INSTANCES` strides.
    pub open spec fn well_formed(&self) -> bool {
        &&& slot_fault(CIRCLE_UNIFORM_SIZE, self.spec_alignment(), CIRCLE_MAX_INSTANCES) is None
        &&& self.spec_circle_slot() == uniform_slot_spec(
            0,
            ShaderStages::VertexFragment,
            CIRCLE_UNIFORM_SIZE,
            CIRCLE_MIN_BINDING_SIZE,
            self.spec_alignment(),
            CIRCLE_MAX_INSTANCES,
        )
    }

    /// Why the pipeline cannot be laid out for the given alignment, if it
    /// cannot.
    pub open spec fn setup_fault(min_alignment: u32) -> Option<SetupError> {
        slot_fault(CIRCLE_UNIFORM_SIZE, min_alignment, CIRCLE_MAX_INSTANCES)
    }

    /// Lays the pipeline out for a device whose dynamic offsets must be
    /// multiples of `min_alignment`. No request is pending.
    pub fn new(min_alignment: u32) -> (r: Result<CirclePipeline, SetupError>)
        ensures
            match Self::setup_fault(min_alignment) {
                Some(e) => r is Err && r->Err_0 == e,
                None => r is Ok && r->Ok_0.well_formed() && r->Ok_0.spec_alignment()
                    == min_alignment && r->Ok_0.circles() == Seq::<CircleInfo>::empty(),
            },
            r is Ok ==> r->Ok_0.spec_circle_slot().stride == padded_stride_spec(
                CIRCLE_UNIFORM_SIZE as nat,
                min_alignment as nat,
            ),
            r is Ok ==> r->Ok_0.spec_circle_slot().buffer_size == CIRCLE_MAX_INSTANCES
                * r->Ok_0.spec_circle_slot().stride,
    {
        let circle_slot = match UniformSlot::new(
            0,
            ShaderStages::VertexFragment,
            CIRCLE_UNIFORM_SIZE,
            CIRCLE_MIN_BINDING_SIZE,
            min_alignment,
            CIRCLE_MAX_INSTANCES,
        ) {
            Ok(slot) => slot,
            Err(e) => {
                return Err(e);
            },
        };
        Ok(CirclePipeline { circle_info: Vec::new(), alignment: min_alignment, circle_slot })
    }

    /// The distance in bytes between two circles in the buffer.
    pub fn circle_uniform_alignment(&self) -> (stride: u64)
        ensures
            stride == self.spec_circle_slot().stride,
    {
        self.circle_slot.stride
    }

    /// The slots of the uniform bind group, in the order of their bindings.
    /// A draw call lists its dynamic offsets in the same order.
    pub fn uniform_slots(&self) -> (slots: Vec<UniformSlot>)
        ensures
            slots@ == seq![self.spec_circle_slot()],
    {
        let mut slots: Vec<UniformSlot> = Vec::new();
        slots.push(self.circle_slot);
        slots
    }

    /// The layout of the uniform bind group: one entry for the one slot.
    pub fn bind_group_layout(&self) -> (layout: BindGroupLayoutDescriptor<'static>)
        ensures
            layout.label is None,
            layout.entries@ == uniform_layout_entries_spec(seq![self.spec_circle_slot()]),
    {
        let slots = self.uniform_slots();
        uniform_bind_group_layout(None, &slots)
    }

    /// The render pipeline of the circles, for a target of the given
    /// format: a list of triangles, laid over the target by their alpha,
    /// with the uniforms in bind group 0.
    pub fn render_pipeline<'a>(&self, format: TextureFormat, shader_source: &'a str) -> (d:
        RenderPipelineDescriptor<'a>)
        ensures
            describes_pipeline(
                d,
                circle_labels(),
                shader_source@,
                PrimitiveTopology::TriangleList,
                alpha_over_target_spec(format),
                PositionVertex::desc_spec(),
                seq![uniform_layout_entries_spec(seq![self.spec_circle_slot()])],
            ),
            d.layout.bind_group_layouts@[0].label is None,
    {
        let mut groups: Vec<BindGroupLayoutDescriptor<'a>> = Vec::new();
        groups.push(self.bind_group_layout());
        let labels = PipelineLabels {
            pipeline: "Circle - Render Pipeline",
            shader: "Circle - Builtin Shader",
            layout: "Circle - Vertex layout descriptor",
        };
        let d = builtin_pipeline::<PositionVertex>(
            labels,
            shader_source,
            PrimitiveTopology::TriangleList,
            alpha_over_target(format),
            groups,
        );
        assert(d.layout.bind_group_layouts@[0].entries@ == uniform_layout_entries_spec(
            seq![self.spec_circle_slot()],
        ));
        d
    }

    /// The static mesh of the pipeline: the four corners of the unit square about the origin.
    pub fn vertices(&self) -> (mesh: Vec<PositionVertex>)
        ensures
            mesh@ == circle_mesh_spec(),
    {
        circle_vertices()
    }

    /// The indices of the two triangles of the mesh. A draw call covers
    /// all six.
    pub fn indices(&self) -> (indices: Vec<u16>)
        ensures
            indices@ == circle_indices_spec(),
    {
        circle_indices()
    }

    /// The number of circles that the buffer holds.
    pub fn capacity(&self) -> (capacity: u64)
        requires
            self.well_formed(),
        ensures
            capacity == circle_capacity_spec(self.spec_alignment()),
            capacity <= instance_capacity_spec(CIRCLE_MAX_INSTANCES as nat),
    {
        if self.circle_slot.stride >= CIRCLE_MIN_BINDING_SIZE as u64 {
            (CIRCLE_MAX_INSTANCES - 1) as u64
        } else {
            (CIRCLE_MAX_INSTANCES - 2) as u64
        }
    }

    /// The number of pending requests.
    pub fn len(&self) -> (n: usize)
        ensures
            n == self.circles().len(),
    {
        self.circle_info.len()
    }

    /// The pending request with the given index.
    pub fn get(&self, index: usize) -> (c: Option<CircleInfo>)
        ensures
            c is Some <==> index < self.circles().len(),
            c is Some ==> c->0 == self.circles()[index as int],
    {
        if index < self.circle_info.len() {
            Some(self.circle_info[index])
        } else {
            None
        }
    }

    /// Appends a request. Nothing is uploaded or drawn.
    pub fn push(&mut self, info: CircleInfo)
        ensures
            final(self).circles() == old(self).circles().push(info),
            final(self).spec_alignment() == old(self).spec_alignment(),
            final(self).spec_circle_slot() == old(self).spec_circle_slot(),
    {
        self.circle_info.push(info);
    }

    /// Forgets every pending request.
    pub fn clear(&mut self)
        ensures
            final(self).circles() == Seq::<CircleInfo>::empty(),
            final(self).spec_alignment() == old(self).spec_alignment(),
            final(self).spec_circle_slot() == old(self).spec_circle_slot(),
    {
        self.circle_info.clear();
    }

    /// The writes that put every pending circle into the uniform buffer:
    /// the circle with index `i` at `(i + RESERVED_SLOT_COUNT)` strides.
    ///
    /// Fails with `CapacityOverflow` exactly where more circles are pending
    /// than [`CirclePipeline::capacity`].
    pub fn upload_writes(&self, projection: Projection) -> (r: Result<Vec<UploadWrite>, FrameError>)
        requires
            self.well_formed(),
        ensures
            match capacity_fault(
                PrimitiveKind::Circle,
                self.circles().len(),
                circle_capacity_spec(self.spec_alignment()),
            ) {
                Some(e) => r == Err::<Vec<UploadWrite>, FrameError>(e),
                None => r is Ok && r->Ok_0@ == circle_uploads(
                    self.circles(),
                    projection,
                    self.spec_circle_slot(),
                ),
            },
    {
        let n: usize = self.circle_info.len();
        let capacity: u64 = self.capacity();
        if n as u64 > capacity {
            return Err(
                FrameError::CapacityOverflow {
                    kind: PrimitiveKind::Circle,
                    submitted: n,
                    capacity,
                },
            );
        }
        let mut writes: Vec<UploadWrite> = Vec::new();
        let mut i: usize = 0;
        while i < n
            invariant
                self.well_formed(),
                n == self.circle_info@.len(),
                n <= instance_capacity_spec(CIRCLE_MAX_INSTANCES as nat),
                n <= circle_capacity_spec(self.spec_alignment()),
                i <= n,
                writes@.len() == i,
                forall|k: int|
                    0 <= k < i ==> writes@[k] == circle_upload_at(
                        self.circles(),
                        projection,
                        self.spec_circle_slot(),
                        k,
                    ),
            decreases n - i,
        {
            proof {
                lemma_slot_in_buffer(
                    i as nat,
                    self.circle_slot.stride as nat,
                    CIRCLE_MAX_INSTANCES as nat,
                );
            }
            let circle: CircleInfo = self.circle_info[i];
            let offset: u64 = slot_offset(i, self.circle_slot.stride);
            writes.push(
                UploadWrite {
                    kind: PrimitiveKind::Circle,
                    binding: self.circle_slot.binding,
                    offset,
                    data: UniformData::Circle(
                        CircleUniforms {
                            model: circle.transform.model(projection),
                            color: circle.color,
                            thickness: circle.thickness,
                            fade: circle.fade,
                        },
                    ),
                },
            );
            i += 1;
        }
        assert(writes@ =~= circle_uploads(self.circles(), projection, self.spec_circle_slot()));
        Ok(writes)
    }

    /// The draw calls of the pending circles, in the order of submission:
    /// for the circle with index `i`, six indices with the dynamic offset of
    /// its slot.
    ///
    /// Fails with `CapacityOverflow` exactly where more circles are pending
    /// than [`CirclePipeline::capacity`].
    pub fn draw_calls(&self) -> (r: Result<Vec<DrawCall>, FrameError>)
        requires
            self.well_formed(),
        ensures
            match capacity_fault(
                PrimitiveKind::Circle,
                self.circles().len(),
                circle_capacity_spec(self.spec_alignment()),
            ) {
                Some(e) => r == Err::<Vec<DrawCall>, FrameError>(e),
                None => r is Ok && r->Ok_0@ == circle_draws(
                    self.circles().len(),
                    self.spec_circle_slot(),
                ),
            },
    {
        let n: usize = self.circle_info.len();
        let capacity: u64 = self.capacity();
        if n as u64 > capacity {
            return Err(
                FrameError::CapacityOverflow {
                    kind: PrimitiveKind::Circle,
                    submitted: n,
                    capacity,
                },
            );
        }
        let mut calls: Vec<DrawCall> = Vec::new();
        let mut i: usize = 0;
        while i < n
            invariant
                self.well_formed(),
                n == self.circle_info@.len(),
                n <= instance_capacity_spec(CIRCLE_MAX_INSTANCES as nat),
                n <= circle_capacity_spec(self.spec_alignment()),
                i <= n,
                calls@.len() == i,
                forall|k: int|
                    0 <= k < i ==> calls@[k] == circle_draw_at(self.spec_circle_slot(), k),
            decreases n - i,
        {
            proof {
                lemma_slot_in_buffer(
                    i as nat,
                    self.circle_slot.stride as nat,
                    CIRCLE_MAX_INSTANCES as nat,
                );
            }
            let offset: u64 = slot_offset(i, self.circle_slot.stride);
            calls.push(DrawCall::Circle { uniform_offset: offset as u32 });
            i += 1;
        }
        assert(calls@ =~= circle_draws(self.circles().len(), self.spec_circle_slot()));
        Ok(calls)
    }
}

} // verus!
