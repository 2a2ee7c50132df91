//! The size of the surface that frames are presented on.

use vstd::prelude::*;

verus! {

/// A size in physical pixels.
#[derive(Clone, Copy, Debug, PartialEq, Eq, Structural)]
pub struct SurfaceSize {
    pub width: u32,
    pub height: u32,
}

impl SurfaceSize {
    /// Whether a surface can have this size: neither side is zero.
    pub open spec fn is_presentable_spec(self) -> bool {
        self.width > 0 && self.height > 0
    }

    /// Whether a surface can have this size: neither side is zero.
    #[verifier::when_used_as_spec(is_presentable_spec)]
    pub fn is_presentable(self) -> (b: bool)
        ensures
            b == self.is_presentable_spec(),
    {
        self.width > 0 && self.height > 0
    }

    /// Takes the new size if a surface can have it, and keeps the old one
    /// otherwise. Returns whether the size was taken, in which case the
    /// surface has to be configured anew.
    pub fn resize(&mut self, new_size: SurfaceSize) -> (taken: bool)
        ensures
            taken == new_size.is_presentable_spec(),
            *final(self) == if taken {
                new_size
            } else {
                *old(self)
            },
    {
        if new_size.width > 0 && new_size.height > 0 {
            *self = new_size;
            true
        } else {
            false
        }
    }
}

/// The index of the first format that is sRGB, given for each format of a
/// surface whether it is; none where no format is.
pub fn first_srgb(is_srgb: &[bool]) -> (index: Option<usize>)
    ensures
        match index {
            Some(i) => i < is_srgb@.len() && is_srgb@[i as int] && forall|k: int|
                0 <= k < i ==> !is_srgb@[k],
            None => forall|k: int| 0 <= k < is_srgb@.len() ==> !is_srgb@[k],
        },
{
    let mut i: usize = 0;
    while i < is_srgb.len()
        invariant
            i <= is_srgb@.len(),
            forall|k: int| 0 <= k < i ==> !is_srgb@[k],
        decreases is_srgb@.len() - i,
    {
        if is_srgb[i] {
            return Some(i);
        }
        i += 1;
    }
    None
}

} // verus!
