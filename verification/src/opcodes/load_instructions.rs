//! The handlers of the 8-bit and 16-bit loads.
use vstd::prelude::*;
use crate::machine::cpu::CPU;
use crate::machine::memory::{step_address, step_back};
use crate::opcodes::alu_instructions::{offset_address, offset_flags};
use crate::opcodes::instruction::{
    operand_of, reg16_of, reg8_of, stack_reg_of, Instruction, Operand, Reg8,
};
use crate::opcodes::opcode::OPCode;
use crate::opcodes::semantics::ran;

verus! {

impl OPCode {
    /// LD r,r': 0b01xxxyyy.
    pub(super) fn op_01xxxyyy(cpu: &mut CPU, destination: u8, source: u8) -> (cycles: u8)
        requires
            old(cpu).wf(),
            reg8_of(destination) is Some,
            reg8_of(source) is Some,
        ensures
            final(cpu).wf(),
            ran(old(cpu)@, final(cpu)@, cycles, Instruction::Ld(operand_of(destination), operand_of(source))),
    {
        let value: u8 = OPCode::read_register(source, cpu);
        OPCode::write_register(destination, cpu, value);
        1
    }

    /// LD r,n: 0b00xxx110.
    pub(super) fn op_00xxx110(cpu: &mut CPU, index: u8) -> (cycles: u8)
        requires
            old(cpu).wf(),
            reg8_of(index) is Some,
        ensures
            final(cpu).wf(),
            ran(old(cpu)@, final(cpu)@, cycles, Instruction::Ld(operand_of(index), Operand::Immediate)),
    {
        let immediate: u8 = cpu.memory_bus.read_byte(cpu.pc);
        cpu.pc = step_address(cpu.pc, 1);
        OPCode::write_register(index, cpu, immediate);
        2
    }

    /// LD r,(HL): 0b01xxx110.
    pub(super) fn op_01xxx110(cpu: &mut CPU, index: u8) -> (cycles: u8)
        requires
            old(cpu).wf(),
            reg8_of(index) is Some,
        ensures
            final(cpu).wf(),
            ran(old(cpu)@, final(cpu)@, cycles, Instruction::Ld(operand_of(index), Operand::AtHL)),
    {
        let address: u16 = cpu.hl();
        let value: u8 = cpu.memory_bus.read_byte(address);
        OPCode::write_register(index, cpu, value);
        2
    }

    /// LD (HL),r: 0b01110xxx.
    pub(super) fn op_01110xxx(cpu: &mut CPU, index: u8) -> (cycles: u8)
        requires
            old(cpu).wf(),
            reg8_of(index) is Some,
        ensures
            final(cpu).wf(),
            ran(old(cpu)@, final(cpu)@, cycles, Instruction::Ld(Operand::AtHL, operand_of(index))),
    {
        let address: u16 = cpu.hl();
        let value: u8 = OPCode::read_register(index, cpu);
        cpu.memory_bus.write_byte(address, value);
        2
    }

    /// LD (HL),n: 0b00110110.
    pub(super) fn op_00110110(cpu: &mut CPU) -> (cycles: u8)
        requires
            old(cpu).wf(),
        ensures
            final(cpu).wf(),
            ran(old(cpu)@, final(cpu)@, cycles, Instruction::Ld(Operand::AtHL, Operand::Immediate)),
    {
        let address: u16 = cpu.hl();
        let immediate: u8 = cpu.memory_bus.read_byte(cpu.pc);
        cpu.pc = step_address(cpu.pc, 1);
        cpu.memory_bus.write_byte(address, immediate);
        3
    }

    /// LD A,(BC): 0b00001010.
    pub(super) fn op_00001010(cpu: &mut CPU) -> (cycles: u8)
        requires
            old(cpu).wf(),
        ensures
            final(cpu).wf(),
            ran(old(cpu)@, final(cpu)@, cycles, Instruction::Ld(Operand::Reg(Reg8::A), Operand::AtBC)),
    {
        let address: u16 = cpu.bc();
        let value: u8 = cpu.memory_bus.read_byte(address);
        cpu.a = value;
        2
    }

    /// LD A,(DE): 0b00011010.
    pub(super) fn op_00011010(cpu: &mut CPU) -> (cycles: u8)
        requires
            old(cpu).wf(),
        ensures
            final(cpu).wf(),
            ran(old(cpu)@, final(cpu)@, cycles, Instruction::Ld(Operand::Reg(Reg8::A), Operand::AtDE)),
    {
        let address: u16 = cpu.de();
        let value: u8 = cpu.memory_bus.read_byte(address);
        cpu.a = value;
        2
    }

    /// LD (BC),A: 0b00000010.
    pub(super) fn op_00000010(cpu: &mut CPU) -> (cycles: u8)
        requires
            old(cpu).wf(),
        ensures
            final(cpu).wf(),
            ran(old(cpu)@, final(cpu)@, cycles, Instruction::Ld(Operand::AtBC, Operand::Reg(Reg8::A))),
    {
        let address: u16 = cpu.bc();
        cpu.memory_bus.write_byte(address, cpu.a);
        2
    }

    /// LD (DE),A: 0b00010010.
    pub(super) fn op_00010010(cpu: &mut CPU) -> (cycles: u8)
        requires
            old(cpu).wf(),
        ensures
            final(cpu).wf(),
            ran(old(cpu)@, final(cpu)@, cycles, Instruction::Ld(Operand::AtDE, Operand::Reg(Reg8::A))),
    {
        let address: u16 = cpu.de();
        cpu.memory_bus.write_byte(address, cpu.a);
        2
    }

    /// LD A,(nn): 0b11111010.
    pub(super) fn op_11111010(cpu: &mut CPU) -> (cycles: u8)
        requires
            old(cpu).wf(),
        ensures
            final(cpu).wf(),
            ran(old(cpu)@, final(cpu)@, cycles, Instruction::Ld(Operand::Reg(Reg8::A), Operand::AtNN)),
    {
        let address: u16 = cpu.memory_bus.read_word(cpu.pc);
        cpu.pc = step_address(cpu.pc, 2);
        let value: u8 = cpu.memory_bus.read_byte(address);
        cpu.a = value;
        4
    }

    /// LD (nn),A: 0b11101010.
    pub(super) fn op_11101010(cpu: &mut CPU) -> (cycles: u8)
        requires
            old(cpu).wf(),
        ensures
            final(cpu).wf(),
            ran(old(cpu)@, final(cpu)@, cycles, Instruction::Ld(Operand::AtNN, Operand::Reg(Reg8::A))),
    {
        let address: u16 = cpu.memory_bus.read_word(cpu.pc);
        cpu.pc = step_address(cpu.pc, 2);
        cpu.memory_bus.write_byte(address, cpu.a);
        4
    }

    /// LDH A,(C): 0b11110010, a load from 0xFF00 + C.
    pub(super) fn op_11110010(cpu: &mut CPU) -> (cycles: u8)
        requires
            old(cpu).wf(),
        ensures
            final(cpu).wf(),
            ran(old(cpu)@, final(cpu)@, cycles, Instruction::Ld(Operand::Reg(Reg8::A), Operand::AtHighC)),
    {
        let address: u16 = 0xFF00 + cpu.c as u16;
        let value: u8 = cpu.memory_bus.read_byte(address);
        cpu.a = value;
        3
    }

    /// LDH (C),A: 0b11100010, a store to 0xFF00 + C.
    pub(super) fn op_11100010(cpu: &mut CPU) -> (cycles: u8)
        requires
            old(cpu).wf(),
        ensures
            final(cpu).wf(),
            ran(old(cpu)@, final(cpu)@, cycles, Instruction::Ld(Operand::AtHighC, Operand::Reg(Reg8::A))),
    {
        let address: u16 = 0xFF00 + cpu.c as u16;
        cpu.memory_bus.write_byte(address, cpu.a);
        3
    }

    /// LDH A,(n): 0b11110000, a load from 0xFF00 + n.
    pub(super) fn op_11110000(cpu: &mut CPU) -> (cycles: u8)
        requires
            old(cpu).wf(),
        ensures
            final(cpu).wf(),
            ran(old(cpu)@, final(cpu)@, cycles, Instruction::Ld(Operand::Reg(Reg8::A), Operand::AtHighN)),
    {
        let offset: u8 = cpu.memory_bus.read_byte(cpu.pc);
        cpu.pc = step_address(cpu.pc, 1);
        let address: u16 = 0xFF00 + offset as u16;
        let value: u8 = cpu.memory_bus.read_byte(address);
        cpu.a = value;
        3
    }

    /// LDH (n),A: 0b11100000, a store to 0xFF00 + n.
    pub(super) fn op_11100000(cpu: &mut CPU) -> (cycles: u8)
        requires
            old(cpu).wf(),
        ensures
            final(cpu).wf(),
            ran(old(cpu)@, final(cpu)@, cycles, Instruction::Ld(Operand::AtHighN, Operand::Reg(Reg8::A))),
    {
        let offset: u8 = cpu.memory_bus.read_byte(cpu.pc);
        cpu.pc = step_address(cpu.pc, 1);
        let address: u16 = 0xFF00 + offset as u16;
        cpu.memory_bus.write_byte(address, cpu.a);
        3
    }

    /// LD A,(HL-): 0b00111010.
    pub(super) fn op_00111010(cpu: &mut CPU) -> (cycles: u8)
        requires
            old(cpu).wf(),
        ensures
            final(cpu).wf(),
            ran(old(cpu)@, final(cpu)@, cycles, Instruction::Ld(Operand::Reg(Reg8::A), Operand::AtHLDec)),
    {
        let address: u16 = cpu.hl();
        let value: u8 = cpu.memory_bus.read_byte(address);
        cpu.set_hl(step_back(address, 1));
        cpu.a = value;
        2
    }

    /// LD A,(HL+): 0b00101010.
    pub(super) fn op_00101010(cpu: &mut CPU) -> (cycles: u8)
        requires
            old(cpu).wf(),
        ensures
            final(cpu).wf(),
            ran(old(cpu)@, final(cpu)@, cycles, Instruction::Ld(Operand::Reg(Reg8::A), Operand::AtHLInc)),
    {
        let address: u16 = cpu.hl();
        let value: u8 = cpu.memory_bus.read_byte(address);
        cpu.set_hl(step_address(address, 1));
        cpu.a = value;
        2
    }

    /// LD (HL-),A: 0b00110010.
    pub(super) fn op_00110010(cpu: &mut CPU) -> (cycles: u8)
        requires
            old(cpu).wf(),
        ensures
            final(cpu).wf(),
            ran(old(cpu)@, final(cpu)@, cycles, Instruction::Ld(Operand::AtHLDec, Operand::Reg(Reg8::A))),
    {
        let address: u16 = cpu.hl();
        let value: u8 = cpu.a;
        cpu.set_hl(step_back(address, 1));
        cpu.memory_bus.write_byte(address, value);
        2
    }

    /// LD (HL+),A: 0b00100010.
    pub(super) fn op_00100010(cpu: &mut CPU) -> (cycles: u8)
        requires
            old(cpu).wf(),
        ensures
            final(cpu).wf(),
            ran(old(cpu)@, final(cpu)@, cycles, Instruction::Ld(Operand::AtHLInc, Operand::Reg(Reg8::A))),
    {
        let address: u16 = cpu.hl();
        let value: u8 = cpu.a;
        cpu.set_hl(step_address(address, 1));
        cpu.memory_bus.write_byte(address, value);
        2
    }

    /// LD rr,nn: 0b00xx0001.
    pub(super) fn op_00xx0001(cpu: &mut CPU, index: u8) -> (cycles: u8)
        requires
            old(cpu).wf(),
            index < 4,
        ensures
            final(cpu).wf(),
            ran(old(cpu)@, final(cpu)@, cycles, Instruction::LdImm16(reg16_of(index))),
    {
        let value: u16 = cpu.memory_bus.read_word(cpu.pc);
        cpu.pc = step_address(cpu.pc, 2);
        OPCode::set_16b_register_by_index(index, cpu, value);
        3
    }

    /// LD (nn),SP: 0b00001000.
    pub(super) fn op_00001000(cpu: &mut CPU) -> (cycles: u8)
        requires
            old(cpu).wf(),
        ensures
            final(cpu).wf(),
            ran(old(cpu)@, final(cpu)@, cycles, Instruction::LdNNSp),
    {
        let address: u16 = cpu.memory_bus.read_word(cpu.pc);
        cpu.pc = step_address(cpu.pc, 2);
        cpu.memory_bus.write_word(address, cpu.sp);
        6
    }

    /// LD SP,HL: 0b11111001.
    pub(super) fn op_11111001(cpu: &mut CPU) -> (cycles: u8)
        requires
            old(cpu).wf(),
        ensures
            final(cpu).wf(),
            ran(old(cpu)@, final(cpu)@, cycles, Instruction::LdSpHl),
    {
        cpu.sp = cpu.hl();
        2
    }

    /// PUSH rr: 0b11xx0101. SP goes down by two, then the pair is stored at SP.
    pub(super) fn op_11xx0101(cpu: &mut CPU, index: u8) -> (cycles: u8)
        requires
            old(cpu).wf(),
            index < 4,
        ensures
            final(cpu).wf(),
            ran(old(cpu)@, final(cpu)@, cycles, Instruction::Push(stack_reg_of(index))),
    {
        let value: u16 = OPCode::get_stack_register_by_index(index, cpu);
        cpu.sp = step_back(cpu.sp, 2);
        cpu.memory_bus.write_word(cpu.sp, value);
        4
    }

    /// POP rr: 0b11xx0001. The pair is read at SP, then SP goes up by two.
    pub(super) fn op_11xx0001(cpu: &mut CPU, index: u8) -> (cycles: u8)
        requires
            old(cpu).wf(),
            index < 4,
        ensures
            final(cpu).wf(),
            ran(old(cpu)@, final(cpu)@, cycles, Instruction::Pop(stack_reg_of(index))),
    {
        let value: u16 = cpu.memory_bus.read_word(cpu.sp);
        cpu.sp = step_address(cpu.sp, 2);
        OPCode::set_stack_register_by_index(index, cpu, value);
        3
    }

    /// LD HL,SP+e: 0b11111000. The flags come from the unsigned sum of the low bytes.
    pub(super) fn op_11111000(cpu: &mut CPU) -> (cycles: u8)
        requires
            old(cpu).wf(),
        ensures
            final(cpu).wf(),
            ran(old(cpu)@, final(cpu)@, cycles, Instruction::LdHlSpE),
    {
        let e: u8 = cpu.memory_bus.read_byte(cpu.pc);
        cpu.pc = step_address(cpu.pc, 1);
        let (half_carry, carry) = offset_flags(cpu.sp, e);
        OPCode::set_flags(cpu, false, false, half_carry, carry);
        let result: u16 = offset_address(cpu.sp, e);
        cpu.set_hl(result);
        3
    }
}

} // verus!
