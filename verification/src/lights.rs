pub use point_light::PointLight;

pub mod point_light;
