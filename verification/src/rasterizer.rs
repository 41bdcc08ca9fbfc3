//! The rasterizer and the data it works on.

pub mod color;
pub mod coverage;
pub mod draw;
pub mod fixed;
pub mod image;
pub mod laws;
pub mod math;
pub mod scene;

pub use self::color::Color;
pub use self::fixed::{FRAC_BITS, HALF, ONE};
pub use self::image::ImageView;
pub use self::math::{Mat4x4, Vec3, Vec4};
pub use self::scene::{CullMode, DrawCommand, Mesh};
