//! Tracks presses and releases of the Alt and Windows keys, and decides, for
//! each completed hold, whether a synthetic key-up is to be sent so that the
//! menu which the release would otherwise open stays closed.

pub mod error;
pub mod event_handler;
pub mod hold_state;
pub mod keyboard_event;
pub mod keyboard_hook;
pub mod keys;
pub mod send_input;
