//! Decoding of values from a foreign, runtime-typed record system into an
//! owned, statically tagged representation.
//!
//! The foreign system exposes its values only through opaque handles and
//! accessor calls; [`foreign`] models that capability set. [`init`] holds the
//! decoder that turns one handle into an owned tagged value, the composite
//! views over foreign lists and dag nodes, their lazy traversals, and the
//! typed projections out of a decoded value. [`laws`] states and proves,
//! once and for all, how whole traversals relate to the graph they walk.

pub mod error;
pub mod foreign;
pub mod init;
pub mod laws;
pub mod record;
