//! Per-tick input state built from a stream of keyboard, mouse and window events.
//!
//! Events are folded into a `CurrentInput` between two ticks; `step` closes a tick.
//! Held state is level state that survives ticks, while the action logs and the
//! text buffer only describe what happened since the last `step`.

pub mod identity;
pub mod held;
pub mod current_input;
pub mod laws;
