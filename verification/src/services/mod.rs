//! What the relay does on the runtime's side.

pub mod docker;
