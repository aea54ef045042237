//! Fixed-point numeric foundation for CORDIC-style algorithms.
//!
//! Iterative shift-and-add algorithms are generic over the fixed-point
//! representation that carries their intermediate values.  This crate
//! provides the capability contract such a representation must satisfy
//! ([`CordicNumber`]), the validator that decides which
//! `(total bits, fractional bits)` configurations can host the required
//! constants ([`validator`]), the single maximum-precision source from
//! which every per-width constant is derived ([`canonical`]), and four
//! reference representations over signed 8-, 16-, 32- and 64-bit words.
pub mod arith;
pub mod canonical;
pub mod cordic_number;
pub mod fixed16;
pub mod fixed32;
pub mod fixed64;
pub mod fixed8;
pub mod validator;

pub use canonical::Constant;
pub use canonical::U0F64;
pub use cordic_number::CordicNumber;
pub use fixed16::FixedI16;
pub use fixed32::FixedI32;
pub use fixed64::FixedI64;
pub use fixed8::FixedI8;
pub use validator::BoundViolation;
pub use validator::Validation;
