//! Lines: the pending requests of a frame, their place in the uniform
//! buffers, and their draw calls.

use vstd::prelude::*;
use crate::geometry::endpoint_model;
use crate::geometry::endpoint_model_spec;
use crate::geometry::Color;
use crate::geometry::LineComponent;
use crate::geometry::Projection;
use crate::align::padded_stride_spec;
use crate::layout::slot_fault;
use crate::layout::uniform_slot_spec;
use crate::layout::SetupError;
use crate::layout::ShaderStages;
use crate::layout::UniformSlot;
use crate::pipeline::PrimitiveTopology;
use crate::pipeline::RenderPipelineDescriptor;
use crate::pipeline::VertexDescriptor;
use crate::resources::builtin_pipeline;
use crate::resources::describes_pipeline;
use crate::resources::uniform_bind_group_layout;
use crate::resources::uniform_layout_entries_spec;
use crate::resources::PipelineLabels;
use crate::texture::TextureFormat;
use crate::mesh::PositionVertex;
use crate::pipeline::BindGroupLayoutDescriptor;
use crate::resources::replace_target;
use crate::resources::replace_target_spec;
use crate::mesh::line_vertices;
use crate::mesh::line_mesh_spec;
use crate::plan::instance_capacity_spec;
use crate::plan::lemma_slot_in_buffer;
use crate::plan::overflow_fault;
use crate::plan::slot_offset;
use crate::plan::slot_offset_spec;
use crate::plan::DrawCall;
use crate::plan::FrameError;
use crate::plan::PrimitiveKind;
use crate::plan::UniformData;
use crate::plan::UploadWrite;
use crate::quad::COLOR_UNIFORM_SIZE;
use crate::quad::TRANSFORM_UNIFORM_SIZE;

verus! {

/// The number of slots in each uniform buffer of the line pipeline.
pub const LINE_MAX_INSTANCES: u32 = 40;

/// One request to draw a line.
#[derive(Clone, Copy, Debug, PartialEq, Eq, Structural)]
pub struct LineInfo {
    pub transform: LineComponent,
    pub color: Color,
}

/// The `k`-th write of a frame's lines: the colour, the matrix of the
/// origin and the matrix of the destination of each line in turn, each into
/// the slot of the line in its buffer.
pub open spec fn line_upload_at(
    lines: Seq<LineInfo>,
    projection: Projection,
    color_slot: UniformSlot,
    orig_slot: UniformSlot,
    dest_slot: UniformSlot,
    k: int,
) -> UploadWrite {
    let i = k / 3;
    if k % 3 == 0 {
        UploadWrite {
            kind: PrimitiveKind::Line,
            binding: color_slot.binding,
            offset: slot_offset_spec(i as nat, color_slot.stride as nat) as u64,
            data: UniformData::Color(lines[i].color),
        }
    } else if k % 3 == 1 {
        UploadWrite {
            kind: PrimitiveKind::Line,
            binding: orig_slot.binding,
            offset: slot_offset_spec(i as nat, orig_slot.stride as nat) as u64,
            data: UniformData::Matrix(endpoint_model_spec(projection, lines[i].transform.orig)),
        }
    } else {
        UploadWrite {
            kind: PrimitiveKind::Line,
            binding: dest_slot.binding,
            offset: slot_offset_spec(i as nat, dest_slot.stride as nat) as u64,
            data: UniformData::Matrix(endpoint_model_spec(projection, lines[i].transform.dest)),
        }
    }
}

/// The writes of a frame's lines, in the order of submission.
pub open spec fn line_uploads(
    lines: Seq<LineInfo>,
    projection: Projection,
    color_slot: UniformSlot,
    orig_slot: UniformSlot,
    dest_slot: UniformSlot,
) -> Seq<UploadWrite> {
    Seq::new(
        3 * lines.len(),
        |k: int| line_upload_at(lines, projection, color_slot, orig_slot, dest_slot, k),
    )
}

/// The draw call of the `i`-th line of a frame.
pub open spec fn line_draw_at(
    color_slot: UniformSlot,
    orig_slot: UniformSlot,
    dest_slot: UniformSlot,
    i: int,
) -> DrawCall {
    DrawCall::Line {
        color_offset: slot_offset_spec(i as nat, color_slot.stride as nat) as u32,
        orig_offset: slot_offset_spec(i as nat, orig_slot.stride as nat) as u32,
        dest_offset: slot_offset_spec(i as nat, dest_slot.stride as nat) as u32,
    }
}

/// The draw calls of `count` lines, in the order of submission.
pub open spec fn line_draws(
    count: nat,
    color_slot: UniformSlot,
    orig_slot: UniformSlot,
    dest_slot: UniformSlot,
) -> Seq<DrawCall> {
    Seq::new(count, |i: int| line_draw_at(color_slot, orig_slot, dest_slot, i))
}

/// The labels of the line pipeline.
pub open spec fn line_labels() -> PipelineLabels<'static> {
    PipelineLabels {
        pipeline: "Line Vertex Pipeline",
        shader: "Builtin Line Shader",
        layout: "Line Vertex Layout Descriptor",
    }
}

/// A draw call reads what the upload wrote: the dynamic offsets of the call
/// of the line with index `i` are the offsets of the three writes of that
/// line, in the order of the bindings, and what the shader is bound to at
/// each offset ends inside the buffer.
pub proof fn lemma_line_draw_reads_upload(
    lines: Seq<LineInfo>,
    projection: Projection,
    alignment: u32,
    i: int,
)
    requires
        slot_fault(COLOR_UNIFORM_SIZE, alignment, LINE_MAX_INSTANCES) is None,
        slot_fault(TRANSFORM_UNIFORM_SIZE, alignment, LINE_MAX_INSTANCES) is None,
        lines.len() <= instance_capacity_spec(LINE_MAX_INSTANCES as nat),
        0 <= i < lines.len(),
    ensures
        ({
            let color_slot = uniform_slot_spec(
                0,
                ShaderStages::Fragment,
                COLOR_UNIFORM_SIZE,
                COLOR_UNIFORM_SIZE,
                alignment,
                LINE_MAX_INSTANCES,
            );
            let orig_slot = uniform_slot_spec(
                1,
                ShaderStages::VertexFragment,
                TRANSFORM_UNIFORM_SIZE,
                TRANSFORM_UNIFORM_SIZE,
                alignment,
                LINE_MAX_INSTANCES,
            );
            let dest_slot = uniform_slot_spec(
                2,
                ShaderStages::VertexFragment,
                TRANSFORM_UNIFORM_SIZE,
                TRANSFORM_UNIFORM_SIZE,
                alignment,
                LINE_MAX_INSTANCES,
            );
            let writes = line_uploads(lines, projection, color_slot, orig_slot, dest_slot);
            let call = line_draws(lines.len(), color_slot, orig_slot, dest_slot)[i];
            &&& call.dynamic_offsets_spec().len() == 3
            &&& forall|b: int|
                0 <= b < 3 ==> {
                    &&& #[trigger] call.dynamic_offsets_spec()[b] == writes[3 * i + b].offset
                    &&& writes[3 * i + b].binding == b
                    &&& writes[3 * i + b].offset == (i + 1) * padded_stride_spec(
                        writes[3 * i + b].data.size_spec(),
                        alignment as nat,
                    )
                }
            &&& call.dynamic_offsets_spec()[0] + color_slot.min_binding_size
                <= color_slot.buffer_size
            &&& call.dynamic_offsets_spec()[1] + orig_slot.min_binding_size <= orig_slot.buffer_size
            &&& call.dynamic_offsets_spec()[2] + dest_slot.min_binding_size <= dest_slot.buffer_size
        }),
{
    crate::align::lemma_padded_stride_bounds(COLOR_UNIFORM_SIZE as nat, alignment as nat);
    crate::align::lemma_padded_stride_bounds(TRANSFORM_UNIFORM_SIZE as nat, alignment as nat);
    lemma_slot_in_buffer(
        i as nat,
        padded_stride_spec(COLOR_UNIFORM_SIZE as nat, alignment as nat),
        LINE_MAX_INSTANCES as nat,
    );
    lemma_slot_in_buffer(
        i as nat,
        padded_stride_spec(TRANSFORM_UNIFORM_SIZE as nat, alignment as nat),
        LINE_MAX_INSTANCES as nat,
    );
}

/// The lines of a frame and the layout of their uniform buffers.
pub struct LinePipeline {
    line_info: Vec<LineInfo>,
    alignment: u32,
    color_slot: UniformSlot,
    orig_slot: UniformSlot,
    dest_slot: UniformSlot,
}

impl LinePipeline {
    /// The pending requests, in the order of submission.
    pub closed spec fn lines(&self) -> Seq<LineInfo> {
        self.line_info@
    }

    /// The offset alignment of the device that the pipeline was laid out
    /// for.
    pub closed spec fn spec_alignment(&self) -> u32 {
        self.alignment
    }

    /// The slot of the colours.
    pub closed spec fn spec_color_slot(&self) -> UniformSlot {
        self.color_slot
    }

    /// The slot of the matrices of the origins.
    pub closed spec fn spec_orig_slot(&self) -> UniformSlot {
        self.orig_slot
    }

    /// The slot of the matrices of the destinations.
    pub closed spec fn spec_dest_slot(&self) -> UniformSlot {
        self.dest_slot
    }

    /// The layout is the one of [`LinePipeline::new`]: binding 0 holds the
    /// colours for the fragment stage, bindings 1 and 2 the matrices of the
    /// two ends for both stages, and every buffer has room for
    /// `LINE_MAX_INSTANCES` strides.
    pub open spec fn well_formed(&self) -> bool {
        &&& slot_fault(COLOR_UNIFORM_SIZE, self.spec_alignment(), LINE_MAX_INSTANCES) is None
        &&& slot_fault(TRANSFORM_UNIFORM_SIZE, self.spec_alignment(), LINE_MAX_INSTANCES) is None
        &&& self.spec_color_slot() == uniform_slot_spec(
            0,
            ShaderStages::Fragment,
            COLOR_UNIFORM_SIZE,
            COLOR_UNIFORM_SIZE,
            self.spec_alignment(),
            LINE_MAX_INSTANCES,
        )
        &&& self.spec_orig_slot() == uniform_slot_spec(
            1,
            ShaderStages::VertexFragment,
            TRANSFORM_UNIFORM_SIZE,
            TRANSFORM_UNIFORM_SIZE,
            self.spec_alignment(),
            LINE_MAX_INSTANCES,
        )
        &&& self.spec_dest_slot() == uniform_slot_spec(
            2,
            ShaderStages::VertexFragment,
            TRANSFORM_UNIFORM_SIZE,
            TRANSFORM_UNIFORM_SIZE,
            self.spec_alignment(),
            LINE_MAX_INSTANCES,
        )
    }

    /// Why the pipeline cannot be laid out for the given alignment, if it
    /// cannot.
    pub open spec fn setup_fault(min_alignment: u32) -> Option<SetupError> {
        match slot_fault(COLOR_UNIFORM_SIZE, min_alignment, LINE_MAX_INSTANCES) {
            Some(e) => Some(e),
            None => slot_fault(TRANSFORM_UNIFORM_SIZE, min_alignment, LINE_MAX_INSTANCES),
        }
    }

    /// Lays the pipeline out for a device whose dynamic offsets must be
    /// multiples of `min_alignment`. No request is pending.
    pub fn new(min_alignment: u32) -> (r: Result<LinePipeline, SetupError>)
        ensures
            match Self::setup_fault(min_alignment) {
                Some(e) => r is Err && r->Err_0 == e,
                None => r is Ok && r->Ok_0.well_formed() && r->Ok_0.spec_alignment()
                    == min_alignment && r->Ok_0.lines() == Seq::<LineInfo>::empty(),
            },
            r is Ok ==> r->Ok_0.spec_color_slot().stride == padded_stride_spec(
                COLOR_UNIFORM_SIZE as nat,
                min_alignment as nat,
            ),
            r is Ok ==> r->Ok_0.spec_orig_slot().stride == padded_stride_spec(
                TRANSFORM_UNIFORM_SIZE as nat,
                min_alignment as nat,
            ),
            r is Ok ==> r->Ok_0.spec_dest_slot().stride == padded_stride_spec(
                TRANSFORM_UNIFORM_SIZE as nat,
                min_alignment as nat,
            ),
    {
        let color_slot = match UniformSlot::new(
            0,
            ShaderStages::Fragment,
            COLOR_UNIFORM_SIZE,
            COLOR_UNIFORM_SIZE,
            min_alignment,
            LINE_MAX_INSTANCES,
        ) {
            Ok(slot) => slot,
            Err(e) => {
                return Err(e);
            },
        };
        let orig_slot = match UniformSlot::new(
            1,
            ShaderStages::VertexFragment,
            TRANSFORM_UNIFORM_SIZE,
            TRANSFORM_UNIFORM_SIZE,
            min_alignment,
            LINE_MAX_INSTANCES,
        ) {
            Ok(slot) => slot,
            Err(e) => {
                return Err(e);
            },
        };
        let dest_slot = UniformSlot { binding: 2, ..orig_slot };
        Ok(
            LinePipeline {
                line_info: Vec::new(),
                alignment: min_alignment,
                color_slot,
                orig_slot,
                dest_slot,
            },
        )
    }

    /// The distance in bytes between the colours of two lines.
    pub fn color_uniform_alignment(&self) -> (stride: u64)
        ensures
            stride == self.spec_color_slot().stride,
    {
        self.color_slot.stride
    }

    /// The distance in bytes between the matrices of two lines.
    pub fn transform_uniform_alignment(&self) -> (stride: u64)
        ensures
            stride == self.spec_orig_slot().stride,
            self.well_formed() ==> stride == self.spec_dest_slot().stride,
    {
        self.orig_slot.stride
    }

    /// The slots of the uniform bind group, in the order of their bindings.
    /// A draw call lists its dynamic offsets in the same order.
    pub fn uniform_slots(&self) -> (slots: Vec<UniformSlot>)
        ensures
            slots@ == seq![self.spec_color_slot(), self.spec_orig_slot(), self.spec_dest_slot()],
    {
        let mut slots: Vec<UniformSlot> = Vec::new();
        slots.push(self.color_slot);
        slots.push(self.orig_slot);
        slots.push(self.dest_slot);
        slots
    }

    /// The layout of the uniform bind group: one entry for each slot.
    pub fn bind_group_layout(&self) -> (layout: BindGroupLayoutDescriptor<'static>)
        ensures
            layout.label is Some && layout.label->0@ == "line_bind_group_layout"@,
            layout.entries@ == uniform_layout_entries_spec(
                seq![self.spec_color_slot(), self.spec_orig_slot(), self.spec_dest_slot()],
            ),
    {
        let slots = self.uniform_slots();
        uniform_bind_group_layout(Some("line_bind_group_layout"), &slots)
    }

    /// The render pipeline of the lines, for a target of the given format:
    /// a list of lines that replace what is in the target, with the
    /// uniforms in bind group 0.
    pub fn render_pipeline<'a>(&self, format: TextureFormat, shader_source: &'a str) -> (d:
        RenderPipelineDescriptor<'a>)
        ensures
            describes_pipeline(
                d,
                line_labels(),
                shader_source@,
                PrimitiveTopology::LineList,
                replace_target_spec(format),
                PositionVertex::desc_spec(),
                seq![
                    uniform_layout_entries_spec(
                        seq![self.spec_color_slot(), self.spec_orig_slot(), self.spec_dest_slot()],
                    ),
                ],
            ),
            d.layout.bind_group_layouts@[0].label is Some,
            d.layout.bind_group_layouts@[0].label->0@ == "line_bind_group_layout"@,
    {
        let mut groups: Vec<BindGroupLayoutDescriptor<'a>> = Vec::new();
        groups.push(self.bind_group_layout());
        let labels = PipelineLabels {
            pipeline: "Line Vertex Pipeline",
            shader: "Builtin Line Shader",
            layout: "Line Vertex Layout Descriptor",
        };
        let d = builtin_pipeline::<PositionVertex>(
            labels,
            shader_source,
            PrimitiveTopology::LineList,
            replace_target(format),
            groups,
        );
        assert(d.layout.bind_group_layouts@[0].entries@ == uniform_layout_entries_spec(
            seq![self.spec_color_slot(), self.spec_orig_slot(), self.spec_dest_slot()],
        ));
        d
    }

    /// The static mesh of the pipeline: two vertices at the origin, which the vertex stage moves to the two ends.
    pub fn vertices(&self) -> (mesh: Vec<PositionVertex>)
        ensures
            mesh@ == line_mesh_spec(),
    {
        line_vertices()
    }

    /// The number of pending requests.
    pub fn len(&self) -> (n: usize)
        ensures
            n == self.lines().len(),
    {
        self.line_info.len()
    }

    /// The pending request with the given index.
    pub fn get(&self, index: usize) -> (l: Option<LineInfo>)
        ensures
            l is Some <==> index < self.lines().len(),
            l is Some ==> l->0 == self.lines()[index as int],
    {
        if index < self.line_info.len() {
            Some(self.line_info[index])
        } else {
            None
        }
    }

    /// Appends a request. Nothing is uploaded or drawn.
    pub fn push(&mut self, info: LineInfo)
        ensures
            final(self).lines() == old(self).lines().push(info),
            final(self).spec_alignment() == old(self).spec_alignment(),
            final(self).spec_color_slot() == old(self).spec_color_slot(),
            final(self).spec_orig_slot() == old(self).spec_orig_slot(),
            final(self).spec_dest_slot() == old(self).spec_dest_slot(),
    {
        self.line_info.push(info);
    }

    /// Forgets every pending request.
    pub fn clear(&mut self)
        ensures
            final(self).lines() == Seq::<LineInfo>::empty(),
            final(self).spec_alignment() == old(self).spec_alignment(),
            final(self).spec_color_slot() == old(self).spec_color_slot(),
            final(self).spec_orig_slot() == old(self).spec_orig_slot(),
            final(self).spec_dest_slot() == old(self).spec_dest_slot(),
    {
        self.line_info.clear();
    }

    /// The writes that put every pending line into the uniform buffers: for
    /// the line with index `i`, its colour, the matrix of its origin and the
    /// matrix of its destination, each at `(i + RESERVED_SLOT_COUNT)`
    /// strides into its buffer.
    ///
    /// Fails with `CapacityOverflow` exactly where more lines are pending
    /// than the buffers hold.
    pub fn upload_writes(&self, projection: Projection) -> (r: Result<Vec<UploadWrite>, FrameError>)
        requires
            self.well_formed(),
        ensures
            match overflow_fault(PrimitiveKind::Line, self.lines().len(), LINE_MAX_INSTANCES as nat) {
                Some(e) => r == Err::<Vec<UploadWrite>, FrameError>(e),
                None => r is Ok && r->Ok_0@ == line_uploads(
                    self.lines(),
                    projection,
                    self.spec_color_slot(),
                    self.spec_orig_slot(),
                    self.spec_dest_slot(),
                ),
            },
    {
        let n: usize = self.line_info.len();
        let capacity: u64 = (LINE_MAX_INSTANCES - 1) as u64;
        if n as u64 > capacity {
            return Err(
                FrameError::CapacityOverflow {
                    kind: PrimitiveKind::Line,
                    submitted: n,
                    capacity,
                },
            );
        }
        let mut writes: Vec<UploadWrite> = Vec::new();
        let mut i: usize = 0;
        while i < n
            invariant
                self.well_formed(),
                n == self.line_info@.len(),
                n <= instance_capacity_spec(LINE_MAX_INSTANCES as nat),
                i <= n,
                writes@.len() == 3 * i,
                forall|k: int|
                    0 <= k < 3 * i ==> writes@[k] == line_upload_at(
                        self.lines(),
                        projection,
                        self.spec_color_slot(),
                        self.spec_orig_slot(),
                        self.spec_dest_slot(),
                        k,
                    ),
            decreases n - i,
        {
            proof {
                lemma_slot_in_buffer(
                    i as nat,
                    self.color_slot.stride as nat,
                    LINE_MAX_INSTANCES as nat,
                );
                lemma_slot_in_buffer(
                    i as nat,
                    self.orig_slot.stride as nat,
                    LINE_MAX_INSTANCES as nat,
                );
            }
            let line: LineInfo = self.line_info[i];
            let color_offset: u64 = slot_offset(i, self.color_slot.stride);
            let orig_offset: u64 = slot_offset(i, self.orig_slot.stride);
            let dest_offset: u64 = slot_offset(i, self.dest_slot.stride);
            writes.push(
                UploadWrite {
                    kind: PrimitiveKind::Line,
                    binding: self.color_slot.binding,
                    offset: color_offset,
                    data: UniformData::Color(line.color),
                },
            );
            writes.push(
                UploadWrite {
                    kind: PrimitiveKind::Line,
                    binding: self.orig_slot.binding,
                    offset: orig_offset,
                    data: UniformData::Matrix(endpoint_model(projection, line.transform.orig)),
                },
            );
            writes.push(
                UploadWrite {
                    kind: PrimitiveKind::Line,
                    binding: self.dest_slot.binding,
                    offset: dest_offset,
                    data: UniformData::Matrix(endpoint_model(projection, line.transform.dest)),
                },
            );
            i += 1;
        }
        assert(writes@ =~= line_uploads(
            self.lines(),
            projection,
            self.spec_color_slot(),
            self.spec_orig_slot(),
            self.spec_dest_slot(),
        ));
        Ok(writes)
    }

    /// The draw calls of the pending lines, in the order of submission: for
    /// the line with index `i`, two vertices with the dynamic offsets of its
    /// slot.
    ///
    /// Fails with `CapacityOverflow` exactly where more lines are pending
    /// than the buffers hold.
    pub fn draw_calls(&self) -> (r: Result<Vec<DrawCall>, FrameError>)
        requires
            self.well_formed(),
        ensures
            match overflow_fault(PrimitiveKind::Line, self.lines().len(), LINE_MAX_INSTANCES as nat) {
                Some(e) => r == Err::<Vec<DrawCall>, FrameError>(e),
                None => r is Ok && r->Ok_0@ == line_draws(
                    self.lines().len(),
                    self.spec_color_slot(),
                    self.spec_orig_slot(),
                    self.spec_dest_slot(),
                ),
            },
    {
        let n: usize = self.line_info.len();
        let capacity: u64 = (LINE_MAX_INSTANCES - 1) as u64;
        if n as u64 > capacity {
            return Err(
                FrameError::CapacityOverflow {
                    kind: PrimitiveKind::Line,
                    submitted: n,
                    capacity,
                },
            );
        }
        let mut calls: Vec<DrawCall> = Vec::new();
        let mut i: usize = 0;
        while i < n
            invariant
                self.well_formed(),
                n == self.line_info@.len(),
                n <= instance_capacity_spec(LINE_MAX_INSTANCES as nat),
                i <= n,
                calls@.len() == i,
                forall|k: int|
                    0 <= k < i ==> calls@[k] == line_draw_at(
                        self.spec_color_slot(),
                        self.spec_orig_slot(),
                        self.spec_dest_slot(),
                        k,
                    ),
            decreases n - i,
        {
            proof {
                lemma_slot_in_buffer(
                    i as nat,
                    self.color_slot.stride as nat,
                    LINE_MAX_INSTANCES as nat,
                );
                lemma_slot_in_buffer(
                    i as nat,
                    self.orig_slot.stride as nat,
                    LINE_MAX_INSTANCES as nat,
                );
            }
            let color_offset: u64 = slot_offset(i, self.color_slot.stride);
            let orig_offset: u64 = slot_offset(i, self.orig_slot.stride);
            let dest_offset: u64 = slot_offset(i, self.dest_slot.stride);
            calls.push(
                DrawCall::Line {
                    color_offset: color_offset as u32,
                    orig_offset: orig_offset as u32,
                    dest_offset: dest_offset as u32,
                },
            );
            i += 1;
        }
        assert(calls@ =~= line_draws(
            self.lines().len(),
            self.spec_color_slot(),
            self.spec_orig_slot(),
            self.spec_dest_slot(),
        ));
        Ok(calls)
    }
}

} // verus!
