//! Square integer matrices of fixed size (3-by-3 and 4-by-4), stored column
//! by column and read by row and column, with entry-wise arithmetic and the
//! matrix product.
pub mod columns;
pub mod constants;
pub mod mat3x3_i32;
pub mod mat4x4_i32;
pub mod square;

pub use mat3x3_i32::Mat3x3;
pub use mat3x3_i32::Matrix3x3;
pub use mat4x4_i32::Mat4x4;
pub use mat4x4_i32::Matrix4x4;
