//! Integer core of a small ray tracer: the unit sphere shape, the pixel
//! canvas that holds rendered colours, its plain-text PPM encoding, and an
//! animated test picture drawn onto it.

pub mod canvas;
pub mod color;
pub mod ppm;
pub mod scene;
pub mod sphere;

pub use canvas::Canvas;
pub use sphere::Sphere;
