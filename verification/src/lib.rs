//! A verified codec core for symbolic enumerations backed by a fixed-width
//! integer representation.
//!
//! The library models an enumeration declaration as a sequence of
//! (name, discriminant) pairs over a declared representation type, validates
//! such a declaration ([`extract`](extract::extract)), and provides the two
//! codec operations: [`encode`](codec::encode), which maps a member to its
//! discriminant, and [`decode`](codec::decode), which maps an arbitrary
//! representable integer back to the nearest declared member.

pub mod codec;
pub mod extract;
pub mod laws;
pub mod model;

pub use model::Disc;
pub use model::EnumModel;
pub use model::Member;
pub use model::ReprType;
pub use model::ReprWidth;
pub use model::Signedness;
