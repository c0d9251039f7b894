pub use builder::{TransformBuilder, Transformable};
pub use transformation::{Over, Transform};

pub mod builder;
pub mod transformation;
