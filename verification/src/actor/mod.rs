//! The building blocks of an actor.
pub mod actor_cell;
pub mod errors;
pub mod laws;
pub mod lifecycle;
pub mod messages;
pub mod runtime;
pub mod spawn;
pub mod step_laws;

pub use runtime::{Actor, ActorRuntime};
pub use spawn::Spawn;
