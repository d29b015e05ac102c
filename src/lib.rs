//! Interrupt-driven LED blinking, modelled and verified.
//!
//! A channel is one LED pin plus the hardware timer that paces it. The
//! initializer installs both handles in take-once slots, then unmasks the
//! channel's interrupt line; the channel's handler claims them on its first
//! run and, on every run, toggles the pin and acknowledges the timer.

pub mod level;
pub mod slot;
pub mod handler;
pub mod hardware;
pub mod channel;
pub mod board;
