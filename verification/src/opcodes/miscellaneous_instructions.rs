//! The handlers of HALT, STOP, DI, EI and NOP.
use vstd::prelude::*;
use crate::machine::cpu::{CpuState, CPU};
use crate::opcodes::instruction::Instruction;
use crate::opcodes::opcode::OPCode;
use crate::opcodes::semantics::ran;

verus! {

impl OPCode {
    /// HALT: 0b01110110. The processor halts when the interrupts are enabled,
    /// or when no enabled interrupt is requested.
    pub(super) fn op_01110110(cpu: &mut CPU) -> (cycles: u8)
        requires
            old(cpu).wf(),
        ensures
            final(cpu).wf(),
            ran(old(cpu)@, final(cpu)@, cycles, Instruction::Halt),
    {
        if cpu.ime() {
            cpu.is_halted = true;
        } else {
            let enabled: u8 = cpu.ie();
            let requested: u8 = cpu.interrupt_flag();
            if enabled & requested == 0 {
                cpu.is_halted = true;
            }
        }
        0
    }

    /// STOP: 0b00010000 0b00000000. Nothing is modelled of the low-power state.
    pub(super) fn op_00010000_00000000(cpu: &mut CPU) -> (cycles: u8)
        requires
            old(cpu).wf(),
        ensures
            final(cpu).wf(),
            ran(old(cpu)@, final(cpu)@, cycles, Instruction::Stop),
    {
        0
    }

    /// DI: 0b11110011.
    pub(super) fn op_11110011(cpu: &mut CPU) -> (cycles: u8)
        requires
            old(cpu).wf(),
        ensures
            final(cpu).wf(),
            ran(old(cpu)@, final(cpu)@, cycles, Instruction::Di),
    {
        cpu.set_ime(false);
        1
    }

    /// EI: 0b11111011.
    pub(super) fn op_11111011(cpu: &mut CPU) -> (cycles: u8)
        requires
            old(cpu).wf(),
        ensures
            final(cpu).wf(),
            ran(old(cpu)@, final(cpu)@, cycles, Instruction::Ei),
    {
        cpu.set_ime(true);
        1
    }

    /// NOP: 0b00000000.
    pub fn op_00000000() -> (cycles: u8)
        ensures
            cycles == 1,
            forall|state: CpuState| ran(state, state, cycles, Instruction::Nop),
    {
        1
    }
}

} // verus!
