//! The emulator: CPU state, memory, flag logic and byte-stream devices.

pub mod console_device;
pub mod device;
pub mod flags;
pub mod i8080;
pub mod memory;
pub mod registers;
