//! Core of a chat-platform command processor: a user registry with a
//! uniqueness invariant, an authorization guard over caller/target and role
//! membership, a router that resolves invocations to handlers and supplies
//! defaults, and a renderer that turns every outcome into a textual reply.

pub mod errors;
pub mod guard;
pub mod registry;
pub mod render;
pub mod router;
pub mod text;
