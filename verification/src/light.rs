//! Point light record: position and intensity. Carried by the scene as
//! opaque data; no illumination is computed in this engine.

use vstd::prelude::*;
use crate::vec::{Vec3, vec_bounded, COORD_MAX};

verus! {

/// A light at `pos` whose effective intensity is its color scaled by a
/// brightness factor.
#[derive(Clone, Copy, PartialEq, Eq, Structural, Debug)]
pub struct Light {
    pub pos: Vec3,
    pub intensity: Vec3,
}

impl Light {
    /// Builds a light at `pos` from a color (channels 0..=255) and a
    /// brightness factor: the stored intensity is `color * intensity`.
    pub fn new(pos: Vec3, color: Vec3, intensity: i128) -> (l: Light)
        requires
            vec_bounded(color, 255),
            0 <= intensity <= COORD_MAX,
        ensures
            l.pos == pos,
            l.intensity.x == color.x * intensity,
            l.intensity.y == color.y * intensity,
            l.intensity.z == color.z * intensity,
    {
        proof {
            crate::num::lemma_abs_mul(color.x as int, intensity as int, 255, COORD_MAX as int);
            crate::num::lemma_abs_mul(color.y as int, intensity as int, 255, COORD_MAX as int);
            crate::num::lemma_abs_mul(color.z as int, intensity as int, 255, COORD_MAX as int);
        }
        Light { pos, intensity: color.mul(intensity) }
    }
}

} // verus!
