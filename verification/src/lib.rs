//! Game-mode status library: keeps an in-memory registry of active game
//! processes consistent with an external daemon's authoritative state.
//!
//! The registry maps process ids to resolved executable names. It is rebuilt
//! wholesale from the daemon's full list at startup and mutated incrementally
//! by registration and unregistration events afterwards; executable names are
//! resolved from a snapshot of the operating system's process table.

pub mod engine;
pub mod registry;
pub mod resolver;
