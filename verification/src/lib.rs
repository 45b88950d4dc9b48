//! The core of a Game Boy (DMG) emulator: the register file and flags of the
//! Sharp LR35902, its instruction interpreter, the memory bus with its
//! cartridge bank controllers, and the frame scheduler's cycle accounting.
//!
//! Every executable function carries a contract over a mathematical model of
//! the machine: `CpuState` for the processor and `BusState` for the address
//! space.
pub mod cartridge;
pub mod emulator;
pub mod graphics;
pub mod io_registers;
pub mod machine;
pub mod opcodes;
