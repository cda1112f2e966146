//! A persistence actor ("Store") that decouples live, concurrently mutated
//! units of simulation state ("Zones") from the durability layer.
//!
//! Zones never block on storage: they send commands to the Store, which owns
//! the backend exclusively, executes commands strictly in arrival order, and
//! admits at most one write at a time through a FIFO grant queue.
//!
//! The crate verifies the Store's core: the wire format for snapshots
//! ([`codec`]), the write-admission state machine ([`admission`]), the
//! in-memory backend ([`backend`]), the error taxonomy ([`error`]), and the
//! actor's command dispatch ([`store`]).

pub mod admission;
pub mod backend;
pub mod codec;
pub mod error;
pub mod key;
pub mod store;
