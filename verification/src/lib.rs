use vstd::prelude::*;

pub mod camera;
pub mod colour;
pub mod light;
pub mod pattern;
pub mod ray;
pub mod render;
pub mod scene;
pub mod shapes;
pub mod fixed;
pub mod intersection;
pub mod material;
pub mod matrix;
pub mod object;
pub mod transform;
pub mod vec3;

pub use camera::Camera;
pub use colour::Colour;
pub use light::Light;
pub use material::Material;
pub use matrix::Matrix4;
pub use object::Object;
pub use render::{render, Image};
pub use scene::Scene;
pub use vec3::{Point3, Vec3};

verus! {

/// The axis a rotation turns about.
pub enum Axis {
    X,
    Y,
    Z,
}

/// The image file formats a rendered pixel buffer can be written in.
#[derive(Clone, Copy, Debug, PartialEq, Eq, Structural)]
pub enum OutputFormat {
    PNG,
    PPM,
}

impl Default for OutputFormat {
    fn default() -> (r: OutputFormat)
        ensures
            r == OutputFormat::PNG,
    {
        OutputFormat::PNG
    }
}

/// Width and height, in pixels, used when the caller supplies no dimensions.
pub fn default_dims() -> (r: (u32, u32))
    ensures
        r.0 == 1280u32,
        r.1 == 720u32,
{
    (1280, 720)
}

} // verus!
