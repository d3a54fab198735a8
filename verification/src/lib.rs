//! Platform-abstraction core of a small bare-metal kernel.
//!
//! The kernel runs on one core and is never interrupted. This library is the
//! part of it that decides and computes:
//!
//! - [`time`] turns the readings of a free-running counter into durations
//!   and back, and plans busy-waits;
//! - [`driver`] keeps the device drivers in the order of their registration
//!   and brings them up in that order;
//! - [`console`] holds the one console in use, a null console until a real
//!   one is registered;
//! - [`synchronization`] is the lock behind which this state sits;
//! - [`bsp`] holds what is particular to the board;
//! - [`panic_wait`] keeps a panic from reporting itself twice.
//!
//! The library touches no hardware. Whoever uses it reads the counter, moves
//! the words to and from the device registers and stops the core, and hands
//! the library plain values.

pub mod bsp;
pub mod console;
pub mod driver;
pub mod panic_wait;
pub mod synchronization;
pub mod time;
