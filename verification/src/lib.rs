//! A modal, vi-style editing engine for a small text input box.
//!
//! The engine is a state machine over a text buffer: one key token goes in,
//! the buffer, the mode, the register and the undo history are updated, and a
//! signal for the host comes out. Every function carries a contract that is
//! checked by Verus.

pub mod buffer;
pub mod chars;
pub mod command;
pub mod editor;
pub mod history;
pub mod host;
pub mod key;
pub mod laws;
pub mod model;
pub mod motion;
pub mod register;
pub mod strings;
pub mod text;
pub mod widget;
