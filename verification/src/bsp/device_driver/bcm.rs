//! Drivers for the peripherals of the BCM system-on-chip family.

pub mod bcm2xxx_pl011_uart;
