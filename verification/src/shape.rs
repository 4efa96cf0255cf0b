//! Common shape attributes and shared transform storage. Shapes never own
//! their transform pair: transforms live in an arena that outlives every
//! shape built from them, and each shape keeps a stable handle into it.

pub mod sphere;
pub mod triangle;

use crate::transform::AffineTransform;
use vstd::prelude::*;

verus! {

/// The orientation attributes every shape carries.
#[derive(Clone, Copy, PartialEq, Eq, Structural, Debug)]
pub struct GenericShape {
    /// Flag that indicates whether the shape's normals should be flipped
    /// from their original directions so that they point to the outside of
    /// the shape.
    pub reverse_orientation: bool,
    /// Flag that indicates whether the shape's transform swaps the
    /// handedness of the object coordinate system for the shape.
    pub transform_swaps_handedness: bool,
}

/// Shared, immutable storage for transform pairs. Many shapes reference
/// one transform by handle; the arena outlives them all.
pub struct TransformArena {
    transforms: Vec<AffineTransform>,
}

impl TransformArena {
    /// The stored transforms, in insertion order.
    pub closed spec fn seq_s(self) -> Seq<AffineTransform> {
        self.transforms@
    }

    /// Every stored transform is well formed.
    pub open spec fn wf(self) -> bool {
        forall|i: int| 0 <= i < self.seq_s().len() ==> (#[trigger] self.seq_s()[i]).wf()
    }

    /// Whether `h` names a transform in this arena.
    pub open spec fn valid_handle(self, h: usize) -> bool {
        h < self.seq_s().len()
    }

    /// An empty arena.
    pub fn new() -> (r: TransformArena)
        ensures
            r.seq_s().len() == 0,
            r.wf(),
    {
        TransformArena { transforms: Vec::new() }
    }

    /// Stores a transform and returns its stable handle.
    pub fn add(&mut self, t: AffineTransform) -> (h: usize)
        requires
            t.wf(),
        ensures
            final(self).seq_s() == old(self).seq_s().push(t),
            h == old(self).seq_s().len(),
            final(self).valid_handle(h),
            old(self).wf() ==> final(self).wf(),
    {
        let h = self.transforms.len();
        self.transforms.push(t);
        h
    }

    /// The transform a handle names.
    pub fn get(&self, h: usize) -> (r: &AffineTransform)
        requires
            self.valid_handle(h),
        ensures
            *r == self.seq_s()[h as int],
            self.wf() ==> r.wf(),
    {
        &self.transforms[h]
    }

    /// The number of stored transforms.
    pub fn len(&self) -> (r: usize)
        ensures
            r == self.seq_s().len(),
    {
        self.transforms.len()
    }
}

} // verus!
