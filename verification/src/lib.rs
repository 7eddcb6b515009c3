//! Keyboard-driven pointer control: the engine that turns key presses into
//! pointer events.
//!
//! The engine watches a stream of input events and decides, for each one,
//! whether it is passed on untouched or swallowed and replaced by a synthetic
//! pointer move, button change or scroll gesture. Everything here is pure:
//! the caller owns the operating-system hook, performs the actions that the
//! engine asks for, and feeds the next event back in.
//!
//! Coordinates are whole pixels (`i64`); scroll velocity is held in fixed
//! point, in millionths of a wheel tick.

pub mod keys;
pub mod scroll;
pub mod event;
pub mod engine;
pub mod theorems;
