//! Typed events from the five-way joystick of the Raspberry Pi Sense HAT.
//!
//! The joystick is a Linux input device. This crate holds the rules that turn
//! what the kernel reports into typed values, each with a machine-checked
//! contract: which of the input devices is the joystick, which raw input
//! records are joystick events and what they mean, and what a device asks of
//! a readiness multiplexer when its descriptor is lent to one.

pub mod adapter;
pub mod codes;
pub mod discovery;
pub mod event;
pub mod poll;
pub mod stick;

pub use adapter::JoystickIo;
pub use codes::{Action, DecodeError, Direction};
pub use event::{JoyStickEvent, RawRecord};
pub use stick::JoyStick;
