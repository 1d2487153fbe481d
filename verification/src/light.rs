//! Point lights.

use vstd::prelude::*;

use crate::colour::Colour;
use crate::vec3::Point3;

verus! {

#[derive(Clone, Copy, Debug, PartialEq, Eq, Structural)]
pub struct Light {
    pub position: Point3,
    pub intensity: Colour,
}

impl Light {
    pub fn new(position: Point3, intensity: Colour) -> (l: Light)
        ensures
            l == (Light { position, intensity }),
    {
        Light { position, intensity }
    }
}

} // verus!
