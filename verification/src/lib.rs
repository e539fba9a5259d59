//! The logic of a window on Windows: what it makes of messages, and how it is opened and closed.
//!
//! The library decides and the caller acts. A window's state takes messages, by their number and
//! parameters, and says what is to be done about them in which order. Where something has to be
//! found out first, it says what, and a method that takes the answer goes on. Handles are
//! addresses, and doubles are bit patterns that the caller computes with.
//!
//! `model` states what every message does to a window, and `laws` what follows from that over the
//! whole life of a window.

pub mod action;
pub mod class;
pub mod clipboard;
pub mod dpi;
pub mod event;
pub mod geometry;
pub mod handle;
pub mod laws;
pub mod message;
pub mod model;
pub mod open;
pub mod placement;
pub mod slot;
pub mod state;
pub mod text;
pub mod win32;
pub mod window;
