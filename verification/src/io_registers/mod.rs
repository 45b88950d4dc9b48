//! The I/O registers.
pub mod io_registers;

pub use io_registers::IOResgisters;
