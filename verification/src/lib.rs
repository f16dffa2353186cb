//! Composable scalar-field evaluation for procedural noise.
//!
//! A noise graph is built from units that each map an n-dimensional point to
//! a single output value. The [`modules::NoiseModule`] trait is the contract
//! every unit satisfies; [`modules::Seedable`] is the orthogonal contract for
//! units whose output pattern is driven by a deterministic seed. The
//! [`modifiers::scale_bias::ScaleBias`] unit is the affine modifier: it wraps
//! a borrowed source unit and remaps its output range.

pub mod modifiers;
pub mod modules;
pub mod scalar;

pub use crate::modifiers::scale_bias::ScaleBias;
pub use crate::modules::NoiseModule;
pub use crate::modules::Seedable;
pub use crate::scalar::ScalarOps;
