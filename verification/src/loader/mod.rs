//! The SD-card boot loader: it brings up the debug UART and loads a kernel
//! image sent over it.
pub mod drivers;
pub mod timer;
pub mod uart;
pub mod console;
pub mod grf;
pub mod driver_manager;
pub mod gic;
pub mod interrupt;
pub mod cpu;
pub mod boot;
