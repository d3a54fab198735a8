//! Board support: what the kernel needs to know about the board it runs on.

pub mod device_driver;
pub mod raspberrypi;
