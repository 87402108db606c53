//! The Discord Gateway connection: shared state, event handling, and the
//! session's decisions.

pub mod events;
pub mod session;
pub mod state;
