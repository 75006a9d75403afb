//! Driver core for a dual H-bridge motor driver of the DRV8833 class.
//!
//! The core performs no pin access of its own. Every operation is a [`task::Task`]:
//! a short program of pin and PWM accesses that a shell carries out one at a time,
//! handing each result back before it is told the next access. What is written to
//! which line, in which order, and which error a failed access gives is decided
//! here and nowhere else.

pub mod board;
pub mod bridge;
pub mod driver;
pub mod parallel_driver;
pub mod pwm_parallel_driver;
pub mod pwm_split_driver;
pub mod signal;
pub mod split_driver;
pub mod sync_driver;
pub mod task;
