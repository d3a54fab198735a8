//! Device drivers: the part of each that needs no hardware.

pub mod bcm;
