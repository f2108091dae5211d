//! Fixed-arity vectors (2, 3, 4 components) and compile-time-dimensioned
//! rectangular matrices over an integer scalar.
//!
//! Matrix multiplication is gated by the type system: `Mat<R, C>` can only be
//! multiplied by a `Mat<C, K>`, so a shape mismatch is a compile-time error,
//! never a runtime one. All arithmetic is specified against a mathematical
//! model of integer grids (`model`), and the algebraic laws of that model are
//! proved in `laws`.

pub mod laws;
pub mod matrix;
pub mod model;
pub mod scalar;
pub mod vec2;
pub mod vec3;
pub mod vec4;

pub use matrix::Mat;
pub use vec2::Vec2;
pub use vec3::Vec3;
pub use vec4::Vec4;
