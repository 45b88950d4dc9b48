//! The handlers of the rotates of A and of the operations of the CB page.
use vstd::prelude::*;
use crate::machine::cpu::CPU;
use crate::opcodes::instruction::{operand_of, reg8_of, Instruction, Operand, ShiftOp};
use crate::opcodes::opcode::OPCode;
use crate::opcodes::semantics::ran;

verus! {

impl OPCode {
    /// RLCA: 0b00000111. Rotates A and clears Z.
    pub(super) fn cb_op_00000111(cpu: &mut CPU) -> (cycles: u8)
        requires
            old(cpu).wf(),
        ensures
            final(cpu).wf(),
            ran(old(cpu)@, final(cpu)@, cycles, Instruction::Rlca),
    {
        let value: u8 = cpu.a;
        let result: u8 = (value << 1) | (value >> 7);
        let carry = value & 0x80 != 0;
        cpu.a = result;
        OPCode::set_flags(cpu, false, false, false, carry);
        1
    }

    /// RRCA: 0b00001111. Rotates A and clears Z.
    pub(super) fn cb_op_00001111(cpu: &mut CPU) -> (cycles: u8)
        requires
            old(cpu).wf(),
        ensures
            final(cpu).wf(),
            ran(old(cpu)@, final(cpu)@, cycles, Instruction::Rrca),
    {
        let value: u8 = cpu.a;
        let result: u8 = (value >> 1) | (value << 7);
        let carry = value & 0x01 != 0;
        cpu.a = result;
        OPCode::set_flags(cpu, false, false, false, carry);
        1
    }

    /// RLA: 0b00010111. Rotates A and clears Z.
    pub(super) fn cb_op_00010111(cpu: &mut CPU) -> (cycles: u8)
        requires
            old(cpu).wf(),
        ensures
            final(cpu).wf(),
            ran(old(cpu)@, final(cpu)@, cycles, Instruction::Rla),
    {
        let value: u8 = cpu.a;
        let cflag: u8 = if cpu.c() { 1 } else { 0 };
        let result: u8 = (value << 1) | cflag;
        let carry = value & 0x80 != 0;
        cpu.a = result;
        OPCode::set_flags(cpu, false, false, false, carry);
        1
    }

    /// RRA: 0b00011111. Rotates A and clears Z.
    pub(super) fn cb_op_00011111(cpu: &mut CPU) -> (cycles: u8)
        requires
            old(cpu).wf(),
        ensures
            final(cpu).wf(),
            ran(old(cpu)@, final(cpu)@, cycles, Instruction::Rra),
    {
        let value: u8 = cpu.a;
        let cflag: u8 = if cpu.c() { 1 } else { 0 };
        let result: u8 = (value >> 1) | (cflag << 7);
        let carry = value & 0x01 != 0;
        cpu.a = result;
        OPCode::set_flags(cpu, false, false, false, carry);
        1
    }

    /// RLC r: 0b00000xxx.
    pub(super) fn cb_op_00000xxx(cpu: &mut CPU, index: u8) -> (cycles: u8)
        requires
            old(cpu).wf(),
            reg8_of(index) is Some,
        ensures
            final(cpu).wf(),
            ran(old(cpu)@, final(cpu)@, cycles, Instruction::Shift(ShiftOp::Rlc, operand_of(index))),
    {
        let value: u8 = OPCode::read_register(index, cpu);
        let result: u8 = (value << 1) | (value >> 7);
        let carry = value & 0x80 != 0;
        OPCode::write_register(index, cpu, result);
        OPCode::set_flags(cpu, result == 0, false, false, carry);
        2
    }

    /// RLC (HL): 0b00000110.
    pub(super) fn cb_op_00000110(cpu: &mut CPU) -> (cycles: u8)
        requires
            old(cpu).wf(),
        ensures
            final(cpu).wf(),
            ran(old(cpu)@, final(cpu)@, cycles, Instruction::Shift(ShiftOp::Rlc, Operand::AtHL)),
    {
        let hl: u16 = cpu.hl();
        let value: u8 = cpu.memory_bus.read_byte(hl);
        let result: u8 = (value << 1) | (value >> 7);
        let carry = value & 0x80 != 0;
        cpu.memory_bus.write_byte(hl, result);
        OPCode::set_flags(cpu, result == 0, false, false, carry);
        4
    }

    /// RRC r: 0b00001xxx.
    pub(super) fn cb_op_00001xxx(cpu: &mut CPU, index: u8) -> (cycles: u8)
        requires
            old(cpu).wf(),
            reg8_of(index) is Some,
        ensures
            final(cpu).wf(),
            ran(old(cpu)@, final(cpu)@, cycles, Instruction::Shift(ShiftOp::Rrc, operand_of(index))),
    {
        let value: u8 = OPCode::read_register(index, cpu);
        let result: u8 = (value >> 1) | (value << 7);
        let carry = value & 0x01 != 0;
        OPCode::write_register(index, cpu, result);
        OPCode::set_flags(cpu, result == 0, false, false, carry);
        2
    }

    /// RRC (HL): 0b00001110.
    pub(super) fn cb_op_00001110(cpu: &mut CPU) -> (cycles: u8)
        requires
            old(cpu).wf(),
        ensures
            final(cpu).wf(),
            ran(old(cpu)@, final(cpu)@, cycles, Instruction::Shift(ShiftOp::Rrc, Operand::AtHL)),
    {
        let hl: u16 = cpu.hl();
        let value: u8 = cpu.memory_bus.read_byte(hl);
        let result: u8 = (value >> 1) | (value << 7);
        let carry = value & 0x01 != 0;
        cpu.memory_bus.write_byte(hl, result);
        OPCode::set_flags(cpu, result == 0, false, false, carry);
        4
    }

    /// RL r: 0b00010xxx.
    pub(super) fn cb_op_00010xxx(cpu: &mut CPU, index: u8) -> (cycles: u8)
        requires
            old(cpu).wf(),
            reg8_of(index) is Some,
        ensures
            final(cpu).wf(),
            ran(old(cpu)@, final(cpu)@, cycles, Instruction::Shift(ShiftOp::Rl, operand_of(index))),
    {
        let value: u8 = OPCode::read_register(index, cpu);
        let cflag: u8 = if cpu.c() { 1 } else { 0 };
        let result: u8 = (value << 1) | cflag;
        let carry = value & 0x80 != 0;
        OPCode::write_register(index, cpu, result);
        OPCode::set_flags(cpu, result == 0, false, false, carry);
        2
    }

    /// RL (HL): 0b00010110.
    pub(super) fn cb_op_00010110(cpu: &mut CPU) -> (cycles: u8)
        requires
            old(cpu).wf(),
        ensures
            final(cpu).wf(),
            ran(old(cpu)@, final(cpu)@, cycles, Instruction::Shift(ShiftOp::Rl, Operand::AtHL)),
    {
        let hl: u16 = cpu.hl();
        let value: u8 = cpu.memory_bus.read_byte(hl);
        let cflag: u8 = if cpu.c() { 1 } else { 0 };
        let result: u8 = (value << 1) | cflag;
        let carry = value & 0x80 != 0;
        cpu.memory_bus.write_byte(hl, result);
        OPCode::set_flags(cpu, result == 0, false, false, carry);
        4
    }

    /// RR r: 0b00011xxx.
    pub(super) fn cb_op_00011xxx(cpu: &mut CPU, index: u8) -> (cycles: u8)
        requires
            old(cpu).wf(),
            reg8_of(index) is Some,
        ensures
            final(cpu).wf(),
            ran(old(cpu)@, final(cpu)@, cycles, Instruction::Shift(ShiftOp::Rr, operand_of(index))),
    {
        let value: u8 = OPCode::read_register(index, cpu);
        let cflag: u8 = if cpu.c() { 1 } else { 0 };
        let result: u8 = (value >> 1) | (cflag << 7);
        let carry = value & 0x01 != 0;
        OPCode::write_register(index, cpu, result);
        OPCode::set_flags(cpu, result == 0, false, false, carry);
        2
    }

    /// RR (HL): 0b00011110.
    pub(super) fn cb_op_00011110(cpu: &mut CPU) -> (cycles: u8)
        requires
            old(cpu).wf(),
        ensures
            final(cpu).wf(),
            ran(old(cpu)@, final(cpu)@, cycles, Instruction::Shift(ShiftOp::Rr, Operand::AtHL)),
    {
        let hl: u16 = cpu.hl();
        let value: u8 = cpu.memory_bus.read_byte(hl);
        let cflag: u8 = if cpu.c() { 1 } else { 0 };
        let result: u8 = (value >> 1) | (cflag << 7);
        let carry = value & 0x01 != 0;
        cpu.memory_bus.write_byte(hl, result);
        OPCode::set_flags(cpu, result == 0, false, false, carry);
        4
    }

    /// SLA r: 0b00100xxx.
    pub(super) fn cb_op_00100xxx(cpu: &mut CPU, index: u8) -> (cycles: u8)
        requires
            old(cpu).wf(),
            reg8_of(index) is Some,
        ensures
            final(cpu).wf(),
            ran(old(cpu)@, final(cpu)@, cycles, Instruction::Shift(ShiftOp::Sla, operand_of(index))),
    {
        let value: u8 = OPCode::read_register(index, cpu);
        let result: u8 = value << 1;
        let carry = value & 0x80 != 0;
        OPCode::write_register(index, cpu, result);
        OPCode::set_flags(cpu, result == 0, false, false, carry);
        2
    }

    /// SLA (HL): 0b00100110.
    pub(super) fn cb_op_00100110(cpu: &mut CPU) -> (cycles: u8)
        requires
            old(cpu).wf(),
        ensures
            final(cpu).wf(),
            ran(old(cpu)@, final(cpu)@, cycles, Instruction::Shift(ShiftOp::Sla, Operand::AtHL)),
    {
        let hl: u16 = cpu.hl();
        let value: u8 = cpu.memory_bus.read_byte(hl);
        let result: u8 = value << 1;
        let carry = value & 0x80 != 0;
        cpu.memory_bus.write_byte(hl, result);
        OPCode::set_flags(cpu, result == 0, false, false, carry);
        4
    }

    /// SRA r: 0b00101xxx.
    pub(super) fn cb_op_00101xxx(cpu: &mut CPU, index: u8) -> (cycles: u8)
        requires
            old(cpu).wf(),
            reg8_of(index) is Some,
        ensures
            final(cpu).wf(),
            ran(old(cpu)@, final(cpu)@, cycles, Instruction::Shift(ShiftOp::Sra, operand_of(index))),
    {
        let value: u8 = OPCode::read_register(index, cpu);
        let result: u8 = (value >> 1) | (value & 0x80);
        let carry = value & 0x01 != 0;
        OPCode::write_register(index, cpu, result);
        OPCode::set_flags(cpu, result == 0, false, false, carry);
        2
    }

    /// SRA (HL): 0b00101110.
    pub(super) fn cb_op_00101110(cpu: &mut CPU) -> (cycles: u8)
        requires
            old(cpu).wf(),
        ensures
            final(cpu).wf(),
            ran(old(cpu)@, final(cpu)@, cycles, Instruction::Shift(ShiftOp::Sra, Operand::AtHL)),
    {
        let hl: u16 = cpu.hl();
        let value: u8 = cpu.memory_bus.read_byte(hl);
        let result: u8 = (value >> 1) | (value & 0x80);
        let carry = value & 0x01 != 0;
        cpu.memory_bus.write_byte(hl, result);
        OPCode::set_flags(cpu, result == 0, false, false, carry);
        4
    }

    /// SWAP r: 0b00110xxx.
    pub(super) fn cb_op_00110xxx(cpu: &mut CPU, index: u8) -> (cycles: u8)
        requires
            old(cpu).wf(),
            reg8_of(index) is Some,
        ensures
            final(cpu).wf(),
            ran(old(cpu)@, final(cpu)@, cycles, Instruction::Shift(ShiftOp::Swap, operand_of(index))),
    {
        let value: u8 = OPCode::read_register(index, cpu);
        let result: u8 = ((value & 0x0F) << 4) | ((value & 0xF0) >> 4);
        let carry = false;
        OPCode::write_register(index, cpu, result);
        OPCode::set_flags(cpu, result == 0, false, false, carry);
        2
    }

    /// SWAP (HL): 0b00110110.
    pub(super) fn cb_op_00110110(cpu: &mut CPU) -> (cycles: u8)
        requires
            old(cpu).wf(),
        ensures
            final(cpu).wf(),
            ran(old(cpu)@, final(cpu)@, cycles, Instruction::Shift(ShiftOp::Swap, Operand::AtHL)),
    {
        let hl: u16 = cpu.hl();
        let value: u8 = cpu.memory_bus.read_byte(hl);
        let result: u8 = ((value & 0x0F) << 4) | ((value & 0xF0) >> 4);
        let carry = false;
        cpu.memory_bus.write_byte(hl, result);
        OPCode::set_flags(cpu, result == 0, false, false, carry);
        4
    }

    /// SRL r: 0b00111xxx.
    pub(super) fn cb_op_00111xxx(cpu: &mut CPU, index: u8) -> (cycles: u8)
        requires
            old(cpu).wf(),
            reg8_of(index) is Some,
        ensures
            final(cpu).wf(),
            ran(old(cpu)@, final(cpu)@, cycles, Instruction::Shift(ShiftOp::Srl, operand_of(index))),
    {
        let value: u8 = OPCode::read_register(index, cpu);
        let result: u8 = value >> 1;
        let carry = value & 0x01 != 0;
        OPCode::write_register(index, cpu, result);
        OPCode::set_flags(cpu, result == 0, false, false, carry);
        2
    }

    /// SRL (HL): 0b00111110.
    pub(super) fn cb_op_00111110(cpu: &mut CPU) -> (cycles: u8)
        requires
            old(cpu).wf(),
        ensures
            final(cpu).wf(),
            ran(old(cpu)@, final(cpu)@, cycles, Instruction::Shift(ShiftOp::Srl, Operand::AtHL)),
    {
        let hl: u16 = cpu.hl();
        let value: u8 = cpu.memory_bus.read_byte(hl);
        let result: u8 = value >> 1;
        let carry = value & 0x01 != 0;
        cpu.memory_bus.write_byte(hl, result);
        OPCode::set_flags(cpu, result == 0, false, false, carry);
        4
    }

    /// BIT b,r: 0b01bbbxxx. Z is set when the bit is clear.
    pub(super) fn cb_op_01xxxxxx(cpu: &mut CPU, bit: u8, index: u8) -> (cycles: u8)
        requires
            old(cpu).wf(),
            bit < 8,
            reg8_of(index) is Some,
        ensures
            final(cpu).wf(),
            ran(old(cpu)@, final(cpu)@, cycles, Instruction::Bit(bit, operand_of(index))),
    {
        let value: u8 = OPCode::read_register(index, cpu);
        let bit_is_zero = (value >> bit) & 1 == 0;
        cpu.set_z(bit_is_zero);
        cpu.set_n(false);
        cpu.set_h(true);
        2
    }

    /// BIT b,(HL): 0b01bbb110. Z is set when the bit is clear.
    pub(super) fn cb_op_01xxx110(cpu: &mut CPU, bit: u8) -> (cycles: u8)
        requires
            old(cpu).wf(),
            bit < 8,
        ensures
            final(cpu).wf(),
            ran(old(cpu)@, final(cpu)@, cycles, Instruction::Bit(bit, Operand::AtHL)),
    {
        let hl: u16 = cpu.hl();
        let value: u8 = cpu.memory_bus.read_byte(hl);
        let bit_is_zero = (value >> bit) & 1 == 0;
        cpu.set_z(bit_is_zero);
        cpu.set_n(false);
        cpu.set_h(true);
        3
    }

    /// RES b,r: 0b10bbbxxx.
    pub(super) fn cb_op_10xxxxxx(cpu: &mut CPU, bit: u8, index: u8) -> (cycles: u8)
        requires
            old(cpu).wf(),
            bit < 8,
            reg8_of(index) is Some,
        ensures
            final(cpu).wf(),
            ran(old(cpu)@, final(cpu)@, cycles, Instruction::Res(bit, operand_of(index))),
    {
        let value: u8 = OPCode::read_register(index, cpu);
        let result: u8 = value & !(1u8 << bit);
        OPCode::write_register(index, cpu, result);
        2
    }

    /// RES b,(HL): 0b10bbb110.
    pub(super) fn cb_op_10xxx110(cpu: &mut CPU, bit: u8) -> (cycles: u8)
        requires
            old(cpu).wf(),
            bit < 8,
        ensures
            final(cpu).wf(),
            ran(old(cpu)@, final(cpu)@, cycles, Instruction::Res(bit, Operand::AtHL)),
    {
        let hl: u16 = cpu.hl();
        let value: u8 = cpu.memory_bus.read_byte(hl);
        let result: u8 = value & !(1u8 << bit);
        cpu.memory_bus.write_byte(hl, result);
        4
    }

    /// SET b,r: 0b11bbbxxx.
    pub(super) fn cb_op_11xxxxxx(cpu: &mut CPU, bit: u8, index: u8) -> (cycles: u8)
        requires
            old(cpu).wf(),
            bit < 8,
            reg8_of(index) is Some,
        ensures
            final(cpu).wf(),
            ran(old(cpu)@, final(cpu)@, cycles, Instruction::SetBit(bit, operand_of(index))),
    {
        let value: u8 = OPCode::read_register(index, cpu);
        let result: u8 = value | (1u8 << bit);
        OPCode::write_register(index, cpu, result);
        2
    }

    /// SET b,(HL): 0b11bbb110.
    pub(super) fn cb_op_11xxx110(cpu: &mut CPU, bit: u8) -> (cycles: u8)
        requires
            old(cpu).wf(),
            bit < 8,
        ensures
            final(cpu).wf(),
            ran(old(cpu)@, final(cpu)@, cycles, Instruction::SetBit(bit, Operand::AtHL)),
    {
        let hl: u16 = cpu.hl();
        let value: u8 = cpu.memory_bus.read_byte(hl);
        let result: u8 = value | (1u8 << bit);
        cpu.memory_bus.write_byte(hl, result);
        4
    }
}

} // verus!
