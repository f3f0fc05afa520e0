//! Guarded cells: a value owned by a lock, reached only through a guard.
pub mod blocking;
pub mod guard;
pub mod laws;
pub mod record;
pub mod sample;
pub mod spin;
