//! Message layer of a consensus node: a compact signed binary envelope, a
//! typed field codec over it, the concrete message types and the sum types
//! that classify an incoming buffer.

pub mod crypto;
pub mod messages;
