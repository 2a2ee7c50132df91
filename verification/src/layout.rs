//! The uniform buffers of a pipeline: one slot per binding, each a buffer
//! with room for a fixed number of padded instances.

use vstd::prelude::*;
use crate::align::padded_stride;
use crate::align::padded_stride_spec;
use crate::align::lemma_padded_stride_bounds;
use crate::plan::instance_capacity_spec;
use crate::plan::lemma_slot_in_buffer;
use crate::plan::slot_offset_spec;

verus! {

/// The shader stages that can see a binding.
#[derive(Clone, Copy, Debug, PartialEq, Eq, Structural)]
pub enum ShaderStages {
    Vertex,
    Fragment,
    VertexFragment,
}

/// Why the resources of a pipeline could not be laid out.
#[derive(Clone, Copy, Debug, PartialEq, Eq, Structural)]
pub enum SetupError {
    /// The device reports an offset alignment of zero.
    ZeroAlignment,
    /// A buffer would be too large for its offsets to be dynamic offsets.
    BufferTooLarge,
}

/// One uniform binding with a dynamic offset, and the buffer behind it.
#[derive(Clone, Copy, Debug, PartialEq, Eq, Structural)]
pub struct UniformSlot {
    /// The index of the binding in its bind group.
    pub binding: u32,
    /// The stages that read the binding.
    pub visibility: ShaderStages,
    /// The size in bytes of one instance's data.
    pub size: u32,
    /// The least size in bytes that a shader may assume for the binding.
    pub min_binding_size: u32,
    /// The distance in bytes between two instances in the buffer.
    pub stride: u64,
    /// The size of the buffer in bytes.
    pub buffer_size: u64,
}

/// The slot for instances of `size` bytes, of which a shader sees
/// `min_binding_size` bytes, on a device with the given offset alignment,
/// with a buffer of `max_instances` strides. The stride is the size of an
/// instance, rounded up to the alignment.
pub open spec fn uniform_slot_spec(
    binding: u32,
    visibility: ShaderStages,
    size: u32,
    min_binding_size: u32,
    alignment: u32,
    max_instances: u32,
) -> UniformSlot {
    UniformSlot {
        binding,
        visibility,
        size,
        min_binding_size,
        stride: padded_stride_spec(size as nat, alignment as nat) as u64,
        buffer_size: (max_instances * padded_stride_spec(size as nat, alignment as nat)) as u64,
    }
}

/// Within capacity, what is written for an instance ends inside the buffer
/// and before the next instance starts, and so does what a shader reads of
/// it where that is no longer than the stride.
pub proof fn lemma_instance_in_buffer(
    size: u32,
    min_binding_size: u32,
    alignment: u32,
    max_instances: u32,
    index: nat,
)
    requires
        slot_fault(size, alignment, max_instances) is None,
        index < instance_capacity_spec(max_instances as nat),
    ensures
        ({
            let slot = uniform_slot_spec(
                0,
                ShaderStages::Vertex,
                size,
                min_binding_size,
                alignment,
                max_instances,
            );
            let offset = slot_offset_spec(index, slot.stride as nat);
            &&& slot.stride == padded_stride_spec(size as nat, alignment as nat)
            &&& slot.stride < size + alignment
            &&& slot.buffer_size == max_instances * slot.stride
            &&& slot.buffer_size <= u32::MAX
            &&& slot.stride >= size
            &&& offset == (index + 1) * slot.stride
            &&& offset % (alignment as nat) == 0
            &&& offset + size <= offset + slot.stride
            &&& offset + slot.stride <= slot.buffer_size
            &&& min_binding_size <= slot.stride ==> offset + min_binding_size <= slot.buffer_size
        }),
{
    let stride = padded_stride_spec(size as nat, alignment as nat);
    lemma_padded_stride_bounds(size as nat, alignment as nat);
    lemma_slot_in_buffer(index, stride, max_instances as nat);
    assert(max_instances * stride >= stride) by (nonlinear_arith)
        requires
            max_instances >= 1,
            stride >= 0,
    ;
    let k = (index + 1) as int;
    let a = alignment as int;
    let q = stride as int / a;
    vstd::arithmetic::div_mod::lemma_fundamental_div_mod(stride as int, a);
    assert(k * (a * q) == (k * q) * a) by (nonlinear_arith);
    vstd::arithmetic::div_mod::lemma_mod_multiples_basic(k * q, a);
}

/// Why a slot for instances of `size` bytes cannot be laid out, if it
/// cannot.
pub open spec fn slot_fault(size: u32, alignment: u32, max_instances: u32) -> Option<SetupError> {
    if alignment == 0 {
        Some(SetupError::ZeroAlignment)
    } else if max_instances * padded_stride_spec(size as nat, alignment as nat) > u32::MAX {
        Some(SetupError::BufferTooLarge)
    } else {
        None
    }
}

impl UniformSlot {
    /// Lays out the slot for instances of `size` bytes, of which a shader
    /// sees `min_binding_size` bytes, on a device with the given offset
    /// alignment, with a buffer of `max_instances` strides.
    ///
    /// Fails with `ZeroAlignment` for an alignment of zero, and else with
    /// `BufferTooLarge` where the buffer would exceed `u32::MAX` bytes.
    pub fn new(
        binding: u32,
        visibility: ShaderStages,
        size: u32,
        min_binding_size: u32,
        alignment: u32,
        max_instances: u32,
    ) -> (r: Result<UniformSlot, SetupError>)
        ensures
            match slot_fault(size, alignment, max_instances) {
                Some(e) => r == Err::<UniformSlot, SetupError>(e),
                None => r == Ok::<UniformSlot, SetupError>(
                    uniform_slot_spec(
                        binding,
                        visibility,
                        size,
                        min_binding_size,
                        alignment,
                        max_instances,
                    ),
                ),
            },
            r is Ok ==> r->Ok_0.buffer_size == max_instances * r->Ok_0.stride,
            r is Ok ==> r->Ok_0.stride >= size,
            r is Ok ==> r->Ok_0.stride < size + alignment,
            r is Ok ==> r->Ok_0.stride % (alignment as u64) == 0,
            r is Ok ==> r->Ok_0.buffer_size <= u32::MAX,
    {
        if alignment == 0 {
            return Err(SetupError::ZeroAlignment);
        }
        proof {
            lemma_padded_stride_bounds(size as nat, alignment as nat);
        }
        let stride: u64 = padded_stride(size as u64, alignment as u64);
        let buffer_size: u64 = match (max_instances as u64).checked_mul(stride) {
            Some(n) => n,
            None => {
                return Err(SetupError::BufferTooLarge);
            },
        };
        if buffer_size > u32::MAX as u64 {
            return Err(SetupError::BufferTooLarge);
        }
        Ok(UniformSlot { binding, visibility, size, min_binding_size, stride, buffer_size })
    }
}

} // verus!
