//! The decision core of a terminal counter application.
//!
//! Three asynchronous sources (terminal input, a tick timer and a render
//! timer) are merged into one channel of [`event::Event`] values; a single
//! consumer turns each event into an [`action::Action`] and applies it to the
//! application state. Everything that decides something lives here and is
//! verified; waiting, sleeping and drawing are left to the caller.

pub mod event;
pub mod action;
pub mod state;
pub mod update_loop;
pub mod mux;
pub mod channel;
pub mod laws;
