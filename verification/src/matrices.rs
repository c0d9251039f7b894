pub use matrix::Matrix;
pub use matrix2::Matrix2;
pub use matrix3::Matrix3;
pub use matrix4::Matrix4;

pub mod matrix;
pub mod matrix2;
pub mod matrix3;
pub mod matrix4;
