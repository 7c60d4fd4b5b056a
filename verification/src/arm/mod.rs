//! Drivers for ARM architectural devices: the GICv3 and the generic timer.
pub mod gicv3;
pub mod generic_timer;
