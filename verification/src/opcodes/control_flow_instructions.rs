//! The handlers of jumps, calls, returns and restarts.
use vstd::prelude::*;
use crate::machine::cpu::CPU;
use crate::machine::memory::{step_address, step_back};
use crate::opcodes::alu_instructions::offset_address;
use crate::opcodes::instruction::{condition_of, Instruction};
use crate::opcodes::opcode::OPCode;
use crate::opcodes::semantics::ran;

verus! {

impl OPCode {
    /// JP nn: 0b11000011.
    pub(super) fn op_11000011(cpu: &mut CPU) -> (cycles: u8)
        requires
            old(cpu).wf(),
        ensures
            final(cpu).wf(),
            ran(old(cpu)@, final(cpu)@, cycles, Instruction::Jp),
    {
        let target_address: u16 = cpu.memory_bus.read_word(cpu.pc);
        cpu.pc = target_address;
        4
    }

    /// JP HL: 0b11101001.
    pub(super) fn op_11101001(cpu: &mut CPU) -> (cycles: u8)
        requires
            old(cpu).wf(),
        ensures
            final(cpu).wf(),
            ran(old(cpu)@, final(cpu)@, cycles, Instruction::JpHl),
    {
        cpu.pc = cpu.hl();
        2
    }

    /// JP cc,nn: 0b110xx010. A taken jump costs one cycle more.
    pub(super) fn op_110xx010(cpu: &mut CPU, condition: u8) -> (cycles: u8)
        requires
            old(cpu).wf(),
            condition < 4,
        ensures
            final(cpu).wf(),
            ran(old(cpu)@, final(cpu)@, cycles, Instruction::JpCc(condition_of(condition))),
    {
        let target_address: u16 = cpu.memory_bus.read_word(cpu.pc);
        cpu.pc = step_address(cpu.pc, 2);
        if OPCode::condition_holds(condition, cpu) {
            cpu.pc = target_address;
            return 4;
        }
        3
    }

    /// JR e: 0b00011000. The offset counts from the byte after the operand.
    pub(super) fn op_00011000(cpu: &mut CPU) -> (cycles: u8)
        requires
            old(cpu).wf(),
        ensures
            final(cpu).wf(),
            ran(old(cpu)@, final(cpu)@, cycles, Instruction::Jr),
    {
        let offset: u8 = cpu.memory_bus.read_byte(cpu.pc);
        cpu.pc = step_address(cpu.pc, 1);
        cpu.pc = offset_address(cpu.pc, offset);
        3
    }

    /// JR cc,e: 0b001xx000. A taken jump costs one cycle more.
    pub(super) fn op_001xx000(cpu: &mut CPU, condition: u8) -> (cycles: u8)
        requires
            old(cpu).wf(),
            condition < 4,
        ensures
            final(cpu).wf(),
            ran(old(cpu)@, final(cpu)@, cycles, Instruction::JrCc(condition_of(condition))),
    {
        let offset: u8 = cpu.memory_bus.read_byte(cpu.pc);
        cpu.pc = step_address(cpu.pc, 1);
        if OPCode::condition_holds(condition, cpu) {
            cpu.pc = offset_address(cpu.pc, offset);
            return 3;
        }
        2
    }

    /// CALL nn: 0b11001101. The address after the operand is pushed.
    pub(super) fn op_11001101(cpu: &mut CPU) -> (cycles: u8)
        requires
            old(cpu).wf(),
        ensures
            final(cpu).wf(),
            ran(old(cpu)@, final(cpu)@, cycles, Instruction::Call),
    {
        let target_address: u16 = cpu.memory_bus.read_word(cpu.pc);
        cpu.pc = step_address(cpu.pc, 2);
        cpu.sp = step_back(cpu.sp, 2);
        cpu.memory_bus.write_word(cpu.sp, cpu.pc);
        cpu.pc = target_address;
        5
    }

    /// CALL cc,nn: 0b110xx100. The program counter passes both operand
    /// bytes whether the call is taken or not; a taken call costs one cycle
    /// more.
    pub(super) fn op_110xx100(cpu: &mut CPU, condition: u8) -> (cycles: u8)
        requires
            old(cpu).wf(),
            condition < 4,
        ensures
            final(cpu).wf(),
            ran(old(cpu)@, final(cpu)@, cycles, Instruction::CallCc(condition_of(condition))),
    {
        let target_address: u16 = cpu.memory_bus.read_word(cpu.pc);
        cpu.pc = step_address(cpu.pc, 2);
        if OPCode::condition_holds(condition, cpu) {
            cpu.sp = step_back(cpu.sp, 2);
            cpu.memory_bus.write_word(cpu.sp, cpu.pc);
            cpu.pc = target_address;
            return 5;
        }
        4
    }

    /// RET: 0b11001001.
    pub(super) fn op_11001001(cpu: &mut CPU) -> (cycles: u8)
        requires
            old(cpu).wf(),
        ensures
            final(cpu).wf(),
            ran(old(cpu)@, final(cpu)@, cycles, Instruction::Ret),
    {
        let target: u16 = cpu.memory_bus.read_word(cpu.sp);
        cpu.sp = step_address(cpu.sp, 2);
        cpu.pc = target;
        4
    }

    /// RET cc: 0b110xx000.
    pub(super) fn op_110xx000(cpu: &mut CPU, condition: u8) -> (cycles: u8)
        requires
            old(cpu).wf(),
            condition < 4,
        ensures
            final(cpu).wf(),
            ran(old(cpu)@, final(cpu)@, cycles, Instruction::RetCc(condition_of(condition))),
    {
        if OPCode::condition_holds(condition, cpu) {
            let target: u16 = cpu.memory_bus.read_word(cpu.sp);
            cpu.sp = step_address(cpu.sp, 2);
            cpu.pc = target;
            return 5;
        }
        2
    }

    /// RETI: 0b11011001. A return that enables the interrupts.
    pub(super) fn op_11011001(cpu: &mut CPU) -> (cycles: u8)
        requires
            old(cpu).wf(),
        ensures
            final(cpu).wf(),
            ran(old(cpu)@, final(cpu)@, cycles, Instruction::Reti),
    {
        let target: u16 = cpu.memory_bus.read_word(cpu.sp);
        cpu.sp = step_address(cpu.sp, 2);
        cpu.pc = target;
        cpu.set_ime(true);
        4
    }

    /// RST t: 0b11ttt111, a call to 8 * t.
    pub(super) fn op_11xxx111(cpu: &mut CPU, t: u8) -> (cycles: u8)
        requires
            old(cpu).wf(),
            t < 8,
        ensures
            final(cpu).wf(),
            ran(old(cpu)@, final(cpu)@, cycles, Instruction::Rst(t)),
    {
        let address: u16 = 8 * (t as u16);
        cpu.sp = step_back(cpu.sp, 2);
        cpu.memory_bus.write_word(cpu.sp, cpu.pc);
        cpu.pc = address;
        4
    }
}

} // verus!
