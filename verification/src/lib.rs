//! Verified logic of a wireless Mecanum-wheel car built from two micro:bit v2
//! boards.
//!
//! One board is the controller: it turns a thumb-stick, an accelerometer and
//! a few buttons into a motion vector and streams it over an IEEE 802.15.4
//! link. The other board is the car: it checks every frame, drives four motors
//! through a PCA9685 PWM chip and stops by itself when the link goes quiet.
//!
//! This crate holds what the two firmwares compute and decide. Peripherals,
//! timers and tasks stay outside: they hand over plain values and carry out
//! what comes back.
//!
//! - [`protocol`] is the wire format and the glyphs of the LED matrix.
//! - [`radio_core`] holds the radio settings and the rules of sending.
//! - [`car`] is the motor chain of the car, its lights, and its drive loop.
//! - [`controller`] is the input pipelines of the controller, their fusion, and
//!   the health of the link.
//! - [`matrix`] multiplexes the LED matrix, [`ws2812`] encodes LED chains.
//! - [`clock`] is the boundary to the system clock.
//! - [`num`] holds the integer helpers the other modules share.

pub mod car;
pub mod clock;
pub mod controller;
pub mod matrix;
pub mod num;
pub mod protocol;
pub mod radio_core;
pub mod ws2812;
