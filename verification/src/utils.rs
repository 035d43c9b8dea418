//! Helpers that the game leans on.

pub mod callable_option;
pub mod oneshot_event_emitter;
