pub use cube::Cube;
pub use plane::Plane;
pub use primitive::{Primitive, PrimitiveShape};
pub use sphere::Sphere;
pub use triangle::Triangle;

pub mod cube;
pub mod plane;
pub mod primitive;
pub mod sphere;
pub mod triangle;
