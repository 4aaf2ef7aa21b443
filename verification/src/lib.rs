//! Two record types that share an embedded context, the sum type over them,
//! and the one transition that turns a `Baz` into the next `State`.

pub mod laws;
pub mod state;

pub use state::{Bar, Baz, Context, State};
