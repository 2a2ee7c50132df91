//! What a frame asks of the graphics backend, as plain values: the writes
//! into the uniform buffers and the draw calls.

use vstd::prelude::*;
use crate::geometry::Color;
use crate::geometry::MatrixProduct;
use crate::geometry::Scalar;

verus! {

/// Slots at the start of every uniform buffer that no instance uses.
///
/// The instance with index `i` of a frame lives in slot
/// `i + RESERVED_SLOT_COUNT`.
pub const RESERVED_SLOT_COUNT: u64 = 1;

/// The three shapes the core can draw, in the order in which they are
/// painted.
#[derive(Clone, Copy, Debug, PartialEq, Eq, Structural)]
pub enum PrimitiveKind {
    Quad,
    Line,
    Circle,
}

impl PrimitiveKind {
    /// The place of the kind in the paint order: kinds with a lower rank are
    /// drawn first and end up below the others.
    pub open spec fn paint_rank_spec(self) -> nat {
        match self {
            PrimitiveKind::Quad => 0,
            PrimitiveKind::Line => 1,
            PrimitiveKind::Circle => 2,
        }
    }

    /// The place of the kind in the paint order.
    pub fn paint_rank(self) -> (rank: u8)
        ensures
            rank == self.paint_rank_spec(),
    {
        match self {
            PrimitiveKind::Quad => 0,
            PrimitiveKind::Line => 1,
            PrimitiveKind::Circle => 2,
        }
    }
}

/// The byte offset of the instance with the given index in a buffer with the
/// given stride.
pub open spec fn slot_offset_spec(index: nat, stride: nat) -> nat {
    (index + RESERVED_SLOT_COUNT as nat) * stride
}

/// The number of instances that a buffer of `max_instances` slots can hold.
pub open spec fn instance_capacity_spec(max_instances: nat) -> nat {
    if max_instances >= RESERVED_SLOT_COUNT as nat {
        (max_instances - RESERVED_SLOT_COUNT as nat) as nat
    } else {
        0
    }
}

/// Every instance within capacity lies wholly inside a buffer of
/// `max_instances` strides, and offsets grow with the index.
pub proof fn lemma_slot_in_buffer(index: nat, stride: nat, max_instances: nat)
    requires
        index < instance_capacity_spec(max_instances),
    ensures
        slot_offset_spec(index, stride) + stride <= max_instances * stride,
        slot_offset_spec(index, stride) == index * stride + stride,
        slot_offset_spec(index, stride) % stride == 0 || stride == 0,
{
    let i = index as int;
    let s = stride as int;
    let m = max_instances as int;
    assert((i + 1) * s + s == (i + 2) * s) by (nonlinear_arith);
    assert((i + 2) * s <= m * s) by (nonlinear_arith)
        requires
            i + 2 <= m,
            s >= 0,
    ;
    assert((i + 1) * s == i * s + s) by (nonlinear_arith);
    if stride > 0 {
        vstd::arithmetic::div_mod::lemma_mod_multiples_basic(i + 1, s);
    }
}

/// The offsets of two different instances in one buffer differ by at least
/// one stride.
pub proof fn lemma_slots_disjoint(i: nat, j: nat, stride: nat)
    requires
        i < j,
    ensures
        slot_offset_spec(i, stride) + stride <= slot_offset_spec(j, stride),
{
    let a = i as int;
    let b = j as int;
    let s = stride as int;
    assert((a + 1) * s + s == (a + 2) * s) by (nonlinear_arith);
    assert((a + 2) * s <= (b + 1) * s) by (nonlinear_arith)
        requires
            a + 2 <= b + 1,
            s >= 0,
    ;
}

/// The byte offset of the instance with the given index in a buffer with
/// the given stride.
pub fn slot_offset(index: usize, stride: u64) -> (offset: u64)
    requires
        slot_offset_spec(index as nat, stride as nat) <= u64::MAX,
    ensures
        offset == slot_offset_spec(index as nat, stride as nat),
{
    if stride == 0 {
        assert((index as nat + RESERVED_SLOT_COUNT as nat) * 0 == 0) by (nonlinear_arith);
        return 0;
    }
    assert(index as nat + 1 <= (index as nat + 1) * stride as nat) by (nonlinear_arith)
        requires
            stride >= 1,
    ;
    let slot: u64 = index as u64 + RESERVED_SLOT_COUNT;
    slot * stride
}

/// The data of one circle as the circle shader reads it.
#[derive(Clone, Copy, Debug, PartialEq, Eq, Structural)]
pub struct CircleUniforms {
    pub model: MatrixProduct,
    pub color: Color,
    pub thickness: Scalar,
    pub fade: Scalar,
}

/// What one write puts into a uniform buffer.
#[derive(Clone, Copy, Debug, PartialEq, Eq, Structural)]
pub enum UniformData {
    /// Four scalars.
    Color(Color),
    /// A 4x4 matrix in column-major order: the value of the product.
    Matrix(MatrixProduct),
    /// Matrix, colour, thickness and fade, one after the other.
    Circle(CircleUniforms),
}

impl UniformData {
    /// The size of the data in bytes.
    pub open spec fn size_spec(self) -> nat {
        match self {
            UniformData::Color(_) => 16,
            UniformData::Matrix(_) => 64,
            UniformData::Circle(_) => 88,
        }
    }

    /// The size of the data in bytes.
    pub fn size(&self) -> (n: u64)
        ensures
            n == self.size_spec(),
    {
        match self {
            UniformData::Color(_) => 16,
            UniformData::Matrix(_) => 64,
            UniformData::Circle(_) => 88,
        }
    }
}

/// One write into the uniform buffer that is bound at `binding` in the
/// bind group of the pipeline of `kind`.
#[derive(Clone, Copy, Debug, PartialEq, Eq, Structural)]
pub struct UploadWrite {
    pub kind: PrimitiveKind,
    pub binding: u32,
    pub offset: u64,
    pub data: UniformData,
}

/// One draw call. Each variant lists the dynamic offsets of its bind group
/// in the order of the group's bindings.
#[derive(Clone, Copy, Debug, PartialEq, Eq, Structural)]
pub enum DrawCall {
    /// Six vertices of the quad mesh, with the texture in the given slot of
    /// the texture map.
    Quad { texture: usize, color_offset: u32, transform_offset: u32 },
    /// The two vertices of the line mesh.
    Line { color_offset: u32, orig_offset: u32, dest_offset: u32 },
    /// Six indices into the four vertices of the quad mesh.
    Circle { uniform_offset: u32 },
}

impl DrawCall {
    /// The kind of primitive that the call draws.
    pub open spec fn kind_spec(self) -> PrimitiveKind {
        match self {
            DrawCall::Quad { .. } => PrimitiveKind::Quad,
            DrawCall::Line { .. } => PrimitiveKind::Line,
            DrawCall::Circle { .. } => PrimitiveKind::Circle,
        }
    }

    /// The kind of primitive that the call draws.
    pub fn kind(&self) -> (k: PrimitiveKind)
        ensures
            k == self.kind_spec(),
    {
        match self {
            DrawCall::Quad { .. } => PrimitiveKind::Quad,
            DrawCall::Line { .. } => PrimitiveKind::Line,
            DrawCall::Circle { .. } => PrimitiveKind::Circle,
        }
    }

    /// The number of vertices, or for a circle of indices, that the call
    /// covers.
    pub open spec fn vertex_count_spec(self) -> nat {
        match self {
            DrawCall::Quad { .. } => 6,
            DrawCall::Line { .. } => 2,
            DrawCall::Circle { .. } => 6,
        }
    }

    /// The number of vertices, or for a circle of indices, that the call
    /// covers.
    pub fn vertex_count(&self) -> (n: u32)
        ensures
            n == self.vertex_count_spec(),
    {
        match self {
            DrawCall::Quad { .. } => 6,
            DrawCall::Line { .. } => 2,
            DrawCall::Circle { .. } => 6,
        }
    }

    /// Whether the call draws through an index buffer.
    pub fn is_indexed(&self) -> (b: bool)
        ensures
            b == (self.kind_spec() == PrimitiveKind::Circle),
    {
        match self {
            DrawCall::Circle { .. } => true,
            _ => false,
        }
    }

    /// The dynamic offsets of the call's uniform bind group, in the order of
    /// the group's bindings.
    pub open spec fn dynamic_offsets_spec(self) -> Seq<u32> {
        match self {
            DrawCall::Quad { color_offset, transform_offset, .. } => seq![
                color_offset,
                transform_offset,
            ],
            DrawCall::Line { color_offset, orig_offset, dest_offset } => seq![
                color_offset,
                orig_offset,
                dest_offset,
            ],
            DrawCall::Circle { uniform_offset } => seq![uniform_offset],
        }
    }

    /// The dynamic offsets of the call's uniform bind group, in the order of
    /// the group's bindings.
    pub fn dynamic_offsets(&self) -> (offsets: Vec<u32>)
        ensures
            offsets@ == self.dynamic_offsets_spec(),
    {
        let mut offsets: Vec<u32> = Vec::new();
        match self {
            DrawCall::Quad { color_offset, transform_offset, .. } => {
                offsets.push(*color_offset);
                offsets.push(*transform_offset);
            },
            DrawCall::Line { color_offset, orig_offset, dest_offset } => {
                offsets.push(*color_offset);
                offsets.push(*orig_offset);
                offsets.push(*dest_offset);
            },
            DrawCall::Circle { uniform_offset } => {
                offsets.push(*uniform_offset);
            },
        }
        offsets
    }
}

/// Why a frame could not be laid out.
#[derive(Clone, Copy, Debug, PartialEq, Eq, Structural)]
pub enum FrameError {
    /// More instances of the kind were submitted than its buffers hold.
    CapacityOverflow { kind: PrimitiveKind, submitted: usize, capacity: u64 },
    /// The quad with the given index names a texture that was never
    /// registered.
    UnknownTexture { quad: usize },
}

/// The error of a kind with `count` pending instances of which its buffers
/// hold `capacity`, if there are more instances than that.
pub open spec fn capacity_fault(kind: PrimitiveKind, count: nat, capacity: nat) -> Option<
    FrameError,
> {
    if count > capacity {
        Some(
            FrameError::CapacityOverflow {
                kind,
                submitted: count as usize,
                capacity: capacity as u64,
            },
        )
    } else {
        None
    }
}

/// The error of a kind with `count` pending instances and buffers of
/// `max_instances` slots, if there are more instances than the buffers hold.
pub open spec fn overflow_fault(kind: PrimitiveKind, count: nat, max_instances: nat) -> Option<
    FrameError,
> {
    capacity_fault(kind, count, instance_capacity_spec(max_instances))
}

} // verus!
