//! Control logic of a rover with two DC motors that is driven over a connection of
//! text frames.
//!
//! - [`pwm`]: the PWM controller's channels and registers, and the duty cycle that
//!   stands for a speed.
//! - [`rover`]: the motor driver and the rover with its left and right motor.
//! - [`json`]: JSON documents as plain values.
//! - [`command`]: the commands, and their decoding from and encoding into frames.
//! - [`session`]: the supervisor of one connection, which stops the rover whenever
//!   command authority is lost.
//! - [`routing`]: where an HTTP request goes.
//!
//! The library performs no input or output. It answers every command and event with
//! the register writes to perform and leaves performing them to its caller.

pub mod command;
pub mod json;
pub mod pwm;
pub mod routing;
pub mod rover;
pub mod session;
