//! Actors and the tasks around them, as decisions on plain values.
//!
//! Everything an actor runtime has to *wait* for (a hook, a port, a timer, a file system event)
//! is done by the code that embeds this crate. Everything it has to *decide* is done here: which
//! hook runs next, which status the actor takes, what its supervisor hears, when a timer fires
//! and who is told about a changed file.
//!
//! * [`actor`]: the lifecycle of one actor, from its start to its last supervision event
//! * [`time`]: messages, stops and kills after a delay
//! * [`watch`]: an actor that relays file changes to those who asked for them
//! * [`concurrency`]: spans of time
//! * [`text`]: numbers as text
pub mod actor;
pub mod concurrency;
pub mod text;
pub mod time;
pub mod watch;
