//! Bring-up of an external memory controller behind a protection unit, a
//! one-time heap-arena handoff, and an interrupt-safe serial message framer.
//!
//! The hardware-facing pieces are modelled as typed register windows and
//! ordered command plans: a caller programs the real device by replaying the
//! plan, while the order, the register values and the state transitions are
//! verified here.

pub mod board;
pub mod buffer;
pub mod common;
pub mod controller;
pub mod error;
pub mod framer;
pub mod heap;
pub mod mem;
pub mod mpu;
pub mod region;
