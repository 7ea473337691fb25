//! The scene: a thin aggregate of the rendered sphere and a light.

use vstd::prelude::*;
use crate::sphere::Sphere;
use crate::light::Light;

verus! {

/// A scene holding the sphere to render and a light record. Built once at
/// setup and immutable afterwards.
#[derive(Clone, Copy, PartialEq, Eq, Structural, Debug)]
pub struct Scene {
    pub sphere: Sphere,
    pub light: Light,
}

impl Scene {
    /// Aggregates a sphere and a light into a scene.
    pub fn new(sphere: Sphere, light: Light) -> (s: Scene)
        ensures
            s.sphere == sphere,
            s.light == light,
    {
        Scene { sphere, light }
    }
}

} // verus!
