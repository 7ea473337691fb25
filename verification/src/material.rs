//! Surface material: the intrinsic color a hit pixel is painted with.

use vstd::prelude::*;
use crate::vec::Vec3;

verus! {

/// Material of a shape; only the intrinsic color matters to this engine.
/// Channels are integers in 0..=255.
#[derive(Clone, Copy, PartialEq, Eq, Structural, Debug)]
pub struct Material {
    pub color: Vec3,
}

impl Material {
    /// Builds a material with the given color.
    pub fn new(color: Vec3) -> (m: Material)
        ensures
            m == (Material { color }),
    {
        Material { color }
    }
}

} // verus!
