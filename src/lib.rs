//! A keyboard remapping engine: a small state machine that turns each incoming
//! key event into zero or more outgoing key events, tracking whether the
//! function modifier is held.

pub mod keys;
pub mod engine;
pub mod laws;
pub mod device;
