//! A stack-based game-state manager: a LIFO stack of dormant states, at most
//! one active state, and an edge-triggered transition protocol that replaces
//! the active state with the top of the stack.
//!
//! The rendering backend (window, fonts, draw submission, presentation) is an
//! external capability: this crate computes what each frame should show and
//! how the state machine evolves, and a host loop performs the actual I/O.

pub mod manager;
pub mod state;
