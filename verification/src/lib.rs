//! Shared execution substrate of a build engine: the service registry, the
//! per-computation context, the bounded execution gateway and the resettable
//! resources that keep them safe across a process fork.
//!
//! A service whose work is done elsewhere is held as the plain state that its
//! rules read. Each operation is one atomic step on that state: the embedding
//! program keeps the state behind a lock, and performs the outside work that a
//! step asks for.

pub mod context;
pub mod gateway;
pub mod graph;
pub mod handles;
pub mod registry;
pub mod resettable;
