//! Typed access to the GPIO ports of STM32 microcontrollers: a bit-field codec
//! for register words, per-register views, a port controller that tracks pin
//! ownership, and a registry over all ports.

pub mod bits;
pub mod cell;
pub mod config;
pub mod views;
pub mod overlay;
pub mod port;
pub mod registry;
pub mod irq;
pub mod util;
pub mod typed;
