//! Typed persistence and actor-reference resolution for a federated mailbox.
//!
//! The crate holds the rules of a small mailbox service as plain, verified
//! functions: how a relational cell becomes a dynamic value, how an actor kind
//! is written to an enumerated column, how an actor reference of any JSON shape
//! is flattened into link writes, and how the prepared statements of the one
//! shared connection are laid out.

pub mod actor;
pub mod codec;
pub mod json;
pub mod resolver;
pub mod store;
