//! The processor, its memory bus, its cycle counter and the errors.
pub mod cpu;
pub mod errors;
pub mod memory;
pub mod time;

pub use cpu::{CpuState, CPU};
pub use errors::Error;
pub use memory::{BusState, MemoryBus, IE, IF};
pub use time::{Timer, CYCLES_PER_FRAME, DEFAULT_TIMER_FREQUENCY, FRAME_DURATION_MICROS};
