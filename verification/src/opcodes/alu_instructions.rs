//! The handlers of the 8-bit and 16-bit arithmetic and logic operations.
use vstd::prelude::*;
use crate::machine::cpu::CPU;
use crate::machine::memory::{address_after, low_byte, split_word, step_address, step_back};
use crate::opcodes::instruction::{operand_of, reg16_of, reg8_of, AluOp, Instruction, Operand};
use crate::opcodes::opcode::OPCode;
use crate::opcodes::semantics::{
    add16_carry, add16_half, alu_carry, alu_half, alu_value, daa_adjustment, daa_carry, daa_value, offset_carry, offset_half, ran, signed, ALUOP,
};

verus! {

/// The low four bits of a byte.
pub(crate) fn low_nibble(value: u8) -> (nibble: u8)
    ensures
        nibble == value % 16,
{
    assert(value & 0x0F == value % 16) by (bit_vector);
    value & 0x0F
}

/// The low twelve bits of a word.
pub(crate) fn low_twelve(value: u16) -> (low: u16)
    ensures
        low == value % 0x1000,
{
    assert(value & 0x0FFF == value % 0x1000) by (bit_vector);
    value & 0x0FFF
}

/// An address moved by a signed offset, wrapping at the ends of the
/// address space.
pub(crate) fn offset_address(address: u16, e: u8) -> (moved: u16)
    ensures
        moved == address_after(address, signed(e)),
{
    reveal(address_after);
    reveal(signed);
    if e < 128 {
        address.wrapping_add(e as u16)
    } else {
        address.wrapping_sub(256 - e as u16)
    }
}

/// The half-carry and the carry of SP plus an offset, both taken from the
/// unsigned sum of the low bytes.
pub(crate) fn offset_flags(sp: u16, e: u8) -> (flags: (bool, bool))
    ensures
        flags.0 == offset_half(sp, e),
        flags.1 == offset_carry(sp, e),
{
    reveal(low_byte);
    reveal(offset_half);
    reveal(offset_carry);
    let (sp_low, _) = split_word(sp);
    let h_flag = low_nibble(sp_low) + low_nibble(e) > 0x0F;
    let c_flag = sp_low as u16 + e as u16 > 0xFF;
    (h_flag, c_flag)
}

/// The decimal adjust of `a` under the flags N, H and C: the adjusted
/// value and the new carry flag.
pub(crate) fn decimal_adjust(a: u8, n: bool, h: bool, c: bool) -> (adjusted: (u8, bool))
    ensures
        adjusted.0 == daa_value(a, n, h, c),
        adjusted.1 == daa_carry(a, n, c),
{
    reveal(daa_adjustment);
    reveal(daa_value);
    reveal(daa_carry);
    let mut adjustment: u8 = 0;
    if n {
        if h {
            adjustment = adjustment + 0x06;
        }
        if c {
            adjustment = adjustment + 0x60;
        }
        (a.wrapping_sub(adjustment), c)
    } else {
        if h || low_nibble(a) > 9 {
            adjustment = adjustment + 0x06;
        }
        if c || a > 0x99 {
            adjustment = adjustment + 0x60;
        }
        (a.wrapping_add(adjustment), c || a > 0x99)
    }
}

/// Runs one operation of the arithmetic and logic unit on `num1` and
/// `num2`, sets the flags of the processor as the operation asks, and
/// returns the result. INC and DEC leave the carry flag alone.
pub fn alu_helper(cpu: &mut CPU, op: ALUOP, num1: u8, num2: u8, carry_in: u8) -> (result: u8)
    requires
        carry_in <= 1,
    ensures
        result == alu_value(op, num1, num2, carry_in),
        final(cpu)@ == old(cpu)@.with_alu_flags(op, num1, num2, carry_in),
        final(cpu).memory_bus == old(cpu).memory_bus,
{
    reveal(alu_value);
    reveal(alu_half);
    reveal(alu_carry);
    match op {
        ALUOP::ADD => {
            let result: u8 = num1.wrapping_add(num2).wrapping_add(carry_in);
            let half_carry = low_nibble(num1) + low_nibble(num2) + carry_in > 0x0F;
            let carry = num1 as u16 + num2 as u16 + carry_in as u16 > 0xFF;
            OPCode::set_flags(cpu, result == 0, false, half_carry, carry);
            result
        },
        ALUOP::SUB => {
            let result: u8 = num1.wrapping_sub(num2).wrapping_sub(carry_in);
            let half_carry = low_nibble(num1) < low_nibble(num2) + carry_in;
            let carry = (num1 as u16) < num2 as u16 + carry_in as u16;
            OPCode::set_flags(cpu, result == 0, true, half_carry, carry);
            result
        },
        ALUOP::INC => {
            let result: u8 = num1.wrapping_add(1);
            let half_carry = low_nibble(num1) + 1 > 0x0F;
            cpu.set_z(result == 0);
            cpu.set_n(false);
            cpu.set_h(half_carry);
            result
        },
        ALUOP::DEC => {
            let result: u8 = num1.wrapping_sub(1);
            let half_carry = low_nibble(num1) == 0;
            cpu.set_z(result == 0);
            cpu.set_n(true);
            cpu.set_h(half_carry);
            result
        },
        ALUOP::AND => {
            let result: u8 = num1 & num2;
            OPCode::set_flags(cpu, result == 0, false, true, false);
            result
        },
        ALUOP::OR => {
            let result: u8 = num1 | num2;
            OPCode::set_flags(cpu, result == 0, false, false, false);
            result
        },
        ALUOP::XOR => {
            let result: u8 = num1 ^ num2;
            OPCode::set_flags(cpu, result == 0, false, false, false);
            result
        },
    }
}

impl OPCode {
    /// ADD r: 0b10000xxx.
    pub(super) fn op_10000xxx(cpu: &mut CPU, index: u8) -> (cycles: u8)
        requires
            old(cpu).wf(),
            reg8_of(index) is Some,
        ensures
            final(cpu).wf(),
            ran(old(cpu)@, final(cpu)@, cycles, Instruction::Alu(AluOp::Add, operand_of(index))),
    {
        let value: u8 = OPCode::read_register(index, cpu);
        let carry: u8 = 0;
        let a: u8 = cpu.a;
        let result: u8 = alu_helper(cpu, ALUOP::ADD, a, value, carry);
        cpu.a = result;
        1
    }

    /// ADD (HL): 0b10000110.
    pub(super) fn op_10000110(cpu: &mut CPU) -> (cycles: u8)
        requires
            old(cpu).wf(),
        ensures
            final(cpu).wf(),
            ran(old(cpu)@, final(cpu)@, cycles, Instruction::Alu(AluOp::Add, Operand::AtHL)),
    {
        let address: u16 = cpu.hl();
        let value: u8 = cpu.memory_bus.read_byte(address);
        let carry: u8 = 0;
        let a: u8 = cpu.a;
        let result: u8 = alu_helper(cpu, ALUOP::ADD, a, value, carry);
        cpu.a = result;
        2
    }

    /// ADD n: 0b11000110.
    pub(super) fn op_11000110(cpu: &mut CPU) -> (cycles: u8)
        requires
            old(cpu).wf(),
        ensures
            final(cpu).wf(),
            ran(old(cpu)@, final(cpu)@, cycles, Instruction::Alu(AluOp::Add, Operand::Immediate)),
    {
        let value: u8 = cpu.memory_bus.read_byte(cpu.pc);
        cpu.pc = step_address(cpu.pc, 1);
        let carry: u8 = 0;
        let a: u8 = cpu.a;
        let result: u8 = alu_helper(cpu, ALUOP::ADD, a, value, carry);
        cpu.a = result;
        2
    }

    /// ADC r: 0b10001xxx.
    pub(super) fn op_10001xxx(cpu: &mut CPU, index: u8) -> (cycles: u8)
        requires
            old(cpu).wf(),
            reg8_of(index) is Some,
        ensures
            final(cpu).wf(),
            ran(old(cpu)@, final(cpu)@, cycles, Instruction::Alu(AluOp::Adc, operand_of(index))),
    {
        let value: u8 = OPCode::read_register(index, cpu);
        let carry: u8 = if cpu.c() { 1 } else { 0 };
        let a: u8 = cpu.a;
        let result: u8 = alu_helper(cpu, ALUOP::ADD, a, value, carry);
        cpu.a = result;
        1
    }

    /// ADC (HL): 0b10001110.
    pub(super) fn op_10001110(cpu: &mut CPU) -> (cycles: u8)
        requires
            old(cpu).wf(),
        ensures
            final(cpu).wf(),
            ran(old(cpu)@, final(cpu)@, cycles, Instruction::Alu(AluOp::Adc, Operand::AtHL)),
    {
        let address: u16 = cpu.hl();
        let value: u8 = cpu.memory_bus.read_byte(address);
        let carry: u8 = if cpu.c() { 1 } else { 0 };
        let a: u8 = cpu.a;
        let result: u8 = alu_helper(cpu, ALUOP::ADD, a, value, carry);
        cpu.a = result;
        2
    }

    /// ADC n: 0b11001110.
    pub(super) fn op_11001110(cpu: &mut CPU) -> (cycles: u8)
        requires
            old(cpu).wf(),
        ensures
            final(cpu).wf(),
            ran(old(cpu)@, final(cpu)@, cycles, Instruction::Alu(AluOp::Adc, Operand::Immediate)),
    {
        let value: u8 = cpu.memory_bus.read_byte(cpu.pc);
        cpu.pc = step_address(cpu.pc, 1);
        let carry: u8 = if cpu.c() { 1 } else { 0 };
        let a: u8 = cpu.a;
        let result: u8 = alu_helper(cpu, ALUOP::ADD, a, value, carry);
        cpu.a = result;
        2
    }

    /// SUB r: 0b10010xxx.
    pub(super) fn op_10010xxx(cpu: &mut CPU, index: u8) -> (cycles: u8)
        requires
            old(cpu).wf(),
            reg8_of(index) is Some,
        ensures
            final(cpu).wf(),
            ran(old(cpu)@, final(cpu)@, cycles, Instruction::Alu(AluOp::Sub, operand_of(index))),
    {
        let value: u8 = OPCode::read_register(index, cpu);
        let carry: u8 = 0;
        let a: u8 = cpu.a;
        let result: u8 = alu_helper(cpu, ALUOP::SUB, a, value, carry);
        cpu.a = result;
        1
    }

    /// SUB (HL): 0b10010110.
    pub(super) fn op_10010110(cpu: &mut CPU) -> (cycles: u8)
        requires
            old(cpu).wf(),
        ensures
            final(cpu).wf(),
            ran(old(cpu)@, final(cpu)@, cycles, Instruction::Alu(AluOp::Sub, Operand::AtHL)),
    {
        let address: u16 = cpu.hl();
        let value: u8 = cpu.memory_bus.read_byte(address);
        let carry: u8 = 0;
        let a: u8 = cpu.a;
        let result: u8 = alu_helper(cpu, ALUOP::SUB, a, value, carry);
        cpu.a = result;
        2
    }

    /// SUB n: 0b11010110.
    pub(super) fn op_11010110(cpu: &mut CPU) -> (cycles: u8)
        requires
            old(cpu).wf(),
        ensures
            final(cpu).wf(),
            ran(old(cpu)@, final(cpu)@, cycles, Instruction::Alu(AluOp::Sub, Operand::Immediate)),
    {
        let value: u8 = cpu.memory_bus.read_byte(cpu.pc);
        cpu.pc = step_address(cpu.pc, 1);
        let carry: u8 = 0;
        let a: u8 = cpu.a;
        let result: u8 = alu_helper(cpu, ALUOP::SUB, a, value, carry);
        cpu.a = result;
        2
    }

    /// SBC r: 0b10011xxx.
    pub(super) fn op_10011xxx(cpu: &mut CPU, index: u8) -> (cycles: u8)
        requires
            old(cpu).wf(),
            reg8_of(index) is Some,
        ensures
            final(cpu).wf(),
            ran(old(cpu)@, final(cpu)@, cycles, Instruction::Alu(AluOp::Sbc, operand_of(index))),
    {
        let value: u8 = OPCode::read_register(index, cpu);
        let carry: u8 = if cpu.c() { 1 } else { 0 };
        let a: u8 = cpu.a;
        let result: u8 = alu_helper(cpu, ALUOP::SUB, a, value, carry);
        cpu.a = result;
        1
    }

    /// SBC (HL): 0b10011110.
    pub(super) fn op_10011110(cpu: &mut CPU) -> (cycles: u8)
        requires
            old(cpu).wf(),
        ensures
            final(cpu).wf(),
            ran(old(cpu)@, final(cpu)@, cycles, Instruction::Alu(AluOp::Sbc, Operand::AtHL)),
    {
        let address: u16 = cpu.hl();
        let value: u8 = cpu.memory_bus.read_byte(address);
        let carry: u8 = if cpu.c() { 1 } else { 0 };
        let a: u8 = cpu.a;
        let result: u8 = alu_helper(cpu, ALUOP::SUB, a, value, carry);
        cpu.a = result;
        2
    }

    /// SBC n: 0b11011110.
    pub(super) fn op_11011110(cpu: &mut CPU) -> (cycles: u8)
        requires
            old(cpu).wf(),
        ensures
            final(cpu).wf(),
            ran(old(cpu)@, final(cpu)@, cycles, Instruction::Alu(AluOp::Sbc, Operand::Immediate)),
    {
        let value: u8 = cpu.memory_bus.read_byte(cpu.pc);
        cpu.pc = step_address(cpu.pc, 1);
        let carry: u8 = if cpu.c() { 1 } else { 0 };
        let a: u8 = cpu.a;
        let result: u8 = alu_helper(cpu, ALUOP::SUB, a, value, carry);
        cpu.a = result;
        2
    }

    /// AND r: 0b10100xxx.
    pub(super) fn op_10100xxx(cpu: &mut CPU, index: u8) -> (cycles: u8)
        requires
            old(cpu).wf(),
            reg8_of(index) is Some,
        ensures
            final(cpu).wf(),
            ran(old(cpu)@, final(cpu)@, cycles, Instruction::Alu(AluOp::And, operand_of(index))),
    {
        let value: u8 = OPCode::read_register(index, cpu);
        let carry: u8 = 0;
        let a: u8 = cpu.a;
        let result: u8 = alu_helper(cpu, ALUOP::AND, a, value, carry);
        cpu.a = result;
        1
    }

    /// AND (HL): 0b10100110.
    pub(super) fn op_10100110(cpu: &mut CPU) -> (cycles: u8)
        requires
            old(cpu).wf(),
        ensures
            final(cpu).wf(),
            ran(old(cpu)@, final(cpu)@, cycles, Instruction::Alu(AluOp::And, Operand::AtHL)),
    {
        let address: u16 = cpu.hl();
        let value: u8 = cpu.memory_bus.read_byte(address);
        let carry: u8 = 0;
        let a: u8 = cpu.a;
        let result: u8 = alu_helper(cpu, ALUOP::AND, a, value, carry);
        cpu.a = result;
        2
    }

    /// AND n: 0b11100110.
    pub(super) fn op_11100110(cpu: &mut CPU) -> (cycles: u8)
        requires
            old(cpu).wf(),
        ensures
            final(cpu).wf(),
            ran(old(cpu)@, final(cpu)@, cycles, Instruction::Alu(AluOp::And, Operand::Immediate)),
    {
        let value: u8 = cpu.memory_bus.read_byte(cpu.pc);
        cpu.pc = step_address(cpu.pc, 1);
        let carry: u8 = 0;
        let a: u8 = cpu.a;
        let result: u8 = alu_helper(cpu, ALUOP::AND, a, value, carry);
        cpu.a = result;
        2
    }

    /// XOR r: 0b10101xxx.
    pub(super) fn op_10101xxx(cpu: &mut CPU, index: u8) -> (cycles: u8)
        requires
            old(cpu).wf(),
            reg8_of(index) is Some,
        ensures
            final(cpu).wf(),
            ran(old(cpu)@, final(cpu)@, cycles, Instruction::Alu(AluOp::Xor, operand_of(index))),
    {
        let value: u8 = OPCode::read_register(index, cpu);
        let carry: u8 = 0;
        let a: u8 = cpu.a;
        let result: u8 = alu_helper(cpu, ALUOP::XOR, a, value, carry);
        cpu.a = result;
        1
    }

    /// XOR (HL): 0b10101110.
    pub(super) fn op_10101110(cpu: &mut CPU) -> (cycles: u8)
        requires
            old(cpu).wf(),
        ensures
            final(cpu).wf(),
            ran(old(cpu)@, final(cpu)@, cycles, Instruction::Alu(AluOp::Xor, Operand::AtHL)),
    {
        let address: u16 = cpu.hl();
        let value: u8 = cpu.memory_bus.read_byte(address);
        let carry: u8 = 0;
        let a: u8 = cpu.a;
        let result: u8 = alu_helper(cpu, ALUOP::XOR, a, value, carry);
        cpu.a = result;
        2
    }

    /// XOR n: 0b11101110.
    pub(super) fn op_11101110(cpu: &mut CPU) -> (cycles: u8)
        requires
            old(cpu).wf(),
        ensures
            final(cpu).wf(),
            ran(old(cpu)@, final(cpu)@, cycles, Instruction::Alu(AluOp::Xor, Operand::Immediate)),
    {
        let value: u8 = cpu.memory_bus.read_byte(cpu.pc);
        cpu.pc = step_address(cpu.pc, 1);
        let carry: u8 = 0;
        let a: u8 = cpu.a;
        let result: u8 = alu_helper(cpu, ALUOP::XOR, a, value, carry);
        cpu.a = result;
        2
    }

    /// OR r: 0b10110xxx.
    pub(super) fn op_10110xxx(cpu: &mut CPU, index: u8) -> (cycles: u8)
        requires
            old(cpu).wf(),
            reg8_of(index) is Some,
        ensures
            final(cpu).wf(),
            ran(old(cpu)@, final(cpu)@, cycles, Instruction::Alu(AluOp::Or, operand_of(index))),
    {
        let value: u8 = OPCode::read_register(index, cpu);
        let carry: u8 = 0;
        let a: u8 = cpu.a;
        let result: u8 = alu_helper(cpu, ALUOP::OR, a, value, carry);
        cpu.a = result;
        1
    }

    /// OR (HL): 0b10110110.
    pub(super) fn op_10110110(cpu: &mut CPU) -> (cycles: u8)
        requires
            old(cpu).wf(),
        ensures
            final(cpu).wf(),
            ran(old(cpu)@, final(cpu)@, cycles, Instruction::Alu(AluOp::Or, Operand::AtHL)),
    {
        let address: u16 = cpu.hl();
        let value: u8 = cpu.memory_bus.read_byte(address);
        let carry: u8 = 0;
        let a: u8 = cpu.a;
        let result: u8 = alu_helper(cpu, ALUOP::OR, a, value, carry);
        cpu.a = result;
        2
    }

    /// OR n: 0b11110110.
    pub(super) fn op_11110110(cpu: &mut CPU) -> (cycles: u8)
        requires
            old(cpu).wf(),
        ensures
            final(cpu).wf(),
            ran(old(cpu)@, final(cpu)@, cycles, Instruction::Alu(AluOp::Or, Operand::Immediate)),
    {
        let value: u8 = cpu.memory_bus.read_byte(cpu.pc);
        cpu.pc = step_address(cpu.pc, 1);
        let carry: u8 = 0;
        let a: u8 = cpu.a;
        let result: u8 = alu_helper(cpu, ALUOP::OR, a, value, carry);
        cpu.a = result;
        2
    }

    /// CP r: 0b10111xxx.
    pub(super) fn op_10111xxx(cpu: &mut CPU, index: u8) -> (cycles: u8)
        requires
            old(cpu).wf(),
            reg8_of(index) is Some,
        ensures
            final(cpu).wf(),
            ran(old(cpu)@, final(cpu)@, cycles, Instruction::Alu(AluOp::Cp, operand_of(index))),
    {
        let value: u8 = OPCode::read_register(index, cpu);
        let carry: u8 = 0;
        let a: u8 = cpu.a;
        alu_helper(cpu, ALUOP::SUB, a, value, carry);
        1
    }

    /// CP (HL): 0b10111110.
    pub(super) fn op_10111110(cpu: &mut CPU) -> (cycles: u8)
        requires
            old(cpu).wf(),
        ensures
            final(cpu).wf(),
            ran(old(cpu)@, final(cpu)@, cycles, Instruction::Alu(AluOp::Cp, Operand::AtHL)),
    {
        let address: u16 = cpu.hl();
        let value: u8 = cpu.memory_bus.read_byte(address);
        let carry: u8 = 0;
        let a: u8 = cpu.a;
        alu_helper(cpu, ALUOP::SUB, a, value, carry);
        2
    }

    /// CP n: 0b11111110.
    pub(super) fn op_11111110(cpu: &mut CPU) -> (cycles: u8)
        requires
            old(cpu).wf(),
        ensures
            final(cpu).wf(),
            ran(old(cpu)@, final(cpu)@, cycles, Instruction::Alu(AluOp::Cp, Operand::Immediate)),
    {
        let value: u8 = cpu.memory_bus.read_byte(cpu.pc);
        cpu.pc = step_address(cpu.pc, 1);
        let carry: u8 = 0;
        let a: u8 = cpu.a;
        alu_helper(cpu, ALUOP::SUB, a, value, carry);
        2
    }

    /// INC r: 0b00xxx100.
    pub(super) fn op_00xxx100(cpu: &mut CPU, index: u8) -> (cycles: u8)
        requires
            old(cpu).wf(),
            reg8_of(index) is Some,
        ensures
            final(cpu).wf(),
            ran(old(cpu)@, final(cpu)@, cycles, Instruction::Inc(operand_of(index))),
    {
        let value: u8 = OPCode::read_register(index, cpu);
        let result: u8 = alu_helper(cpu, ALUOP::INC, value, 1, 0);
        OPCode::write_register(index, cpu, result);
        1
    }

    /// INC (HL): 0b00110100.
    pub(super) fn op_00110100(cpu: &mut CPU) -> (cycles: u8)
        requires
            old(cpu).wf(),
        ensures
            final(cpu).wf(),
            ran(old(cpu)@, final(cpu)@, cycles, Instruction::Inc(Operand::AtHL)),
    {
        let address: u16 = cpu.hl();
        let value: u8 = cpu.memory_bus.read_byte(address);
        let result: u8 = alu_helper(cpu, ALUOP::INC, value, 1, 0);
        cpu.memory_bus.write_byte(address, result);
        3
    }

    /// DEC r: 0b00xxx101.
    pub(super) fn op_00xxx101(cpu: &mut CPU, index: u8) -> (cycles: u8)
        requires
            old(cpu).wf(),
            reg8_of(index) is Some,
        ensures
            final(cpu).wf(),
            ran(old(cpu)@, final(cpu)@, cycles, Instruction::Dec(operand_of(index))),
    {
        let value: u8 = OPCode::read_register(index, cpu);
        let result: u8 = alu_helper(cpu, ALUOP::DEC, value, 1, 0);
        OPCode::write_register(index, cpu, result);
        1
    }

    /// DEC (HL): 0b00110101.
    pub(super) fn op_00110101(cpu: &mut CPU) -> (cycles: u8)
        requires
            old(cpu).wf(),
        ensures
            final(cpu).wf(),
            ran(old(cpu)@, final(cpu)@, cycles, Instruction::Dec(Operand::AtHL)),
    {
        let address: u16 = cpu.hl();
        let value: u8 = cpu.memory_bus.read_byte(address);
        let result: u8 = alu_helper(cpu, ALUOP::DEC, value, 1, 0);
        cpu.memory_bus.write_byte(address, result);
        3
    }

    /// CCF: 0b00111111.
    pub(super) fn op_00111111(cpu: &mut CPU) -> (cycles: u8)
        requires
            old(cpu).wf(),
        ensures
            final(cpu).wf(),
            ran(old(cpu)@, final(cpu)@, cycles, Instruction::Ccf),
    {
        let carry = cpu.c();
        cpu.set_n(false);
        cpu.set_h(false);
        cpu.set_c(!carry);
        1
    }

    /// SCF: 0b00110111.
    pub(super) fn op_00110111(cpu: &mut CPU) -> (cycles: u8)
        requires
            old(cpu).wf(),
        ensures
            final(cpu).wf(),
            ran(old(cpu)@, final(cpu)@, cycles, Instruction::Scf),
    {
        cpu.set_n(false);
        cpu.set_h(false);
        cpu.set_c(true);
        1
    }

    /// DAA: 0b00100111. Adjusts A to packed decimal after an addition or a
    /// subtraction of packed decimals.
    pub(super) fn op_00100111(cpu: &mut CPU) -> (cycles: u8)
        requires
            old(cpu).wf(),
        ensures
            final(cpu).wf(),
            ran(old(cpu)@, final(cpu)@, cycles, Instruction::Daa),
    {
        let n_flag = cpu.n();
        let h_flag = cpu.h();
        let c_flag = cpu.c();
        let (value, carry) = decimal_adjust(cpu.a, n_flag, h_flag, c_flag);
        cpu.a = value;
        cpu.set_z(value == 0);
        cpu.set_h(false);
        cpu.set_c(carry);
        1
    }

    /// CPL: 0b00101111.
    pub(super) fn op_00101111(cpu: &mut CPU) -> (cycles: u8)
        requires
            old(cpu).wf(),
        ensures
            final(cpu).wf(),
            ran(old(cpu)@, final(cpu)@, cycles, Instruction::Cpl),
    {
        cpu.a = !cpu.a;
        cpu.set_n(true);
        cpu.set_h(true);
        1
    }

    /// INC rr: 0b00xx0011.
    pub(super) fn op_00xx0011(cpu: &mut CPU, index: u8) -> (cycles: u8)
        requires
            old(cpu).wf(),
            index < 4,
        ensures
            final(cpu).wf(),
            ran(old(cpu)@, final(cpu)@, cycles, Instruction::Inc16(reg16_of(index))),
    {
        let value: u16 = OPCode::get_16b_register_by_index(index, cpu);
        let result: u16 = step_address(value, 1);
        OPCode::set_16b_register_by_index(index, cpu, result);
        2
    }

    /// DEC rr: 0b00xx1011.
    pub(super) fn op_00xx1011(cpu: &mut CPU, index: u8) -> (cycles: u8)
        requires
            old(cpu).wf(),
            index < 4,
        ensures
            final(cpu).wf(),
            ran(old(cpu)@, final(cpu)@, cycles, Instruction::Dec16(reg16_of(index))),
    {
        let value: u16 = OPCode::get_16b_register_by_index(index, cpu);
        let result: u16 = step_back(value, 1);
        OPCode::set_16b_register_by_index(index, cpu, result);
        2
    }

    /// ADD HL,rr: 0b00xx1001.
    pub(super) fn op_00xx1001(cpu: &mut CPU, index: u8) -> (cycles: u8)
        requires
            old(cpu).wf(),
            index < 4,
        ensures
            final(cpu).wf(),
            ran(old(cpu)@, final(cpu)@, cycles, Instruction::AddHl(reg16_of(index))),
    {
        let rr: u16 = OPCode::get_16b_register_by_index(index, cpu);
        let hl: u16 = cpu.hl();
        let sum: u16 = step_address(hl, rr);
        let half_carry = low_twelve(hl) + low_twelve(rr) > 0x0FFF;
        let carry = hl as u32 + rr as u32 > 0xFFFF;
        proof {
            reveal(add16_half);
            reveal(add16_carry);
        }
        cpu.set_hl(sum);
        cpu.set_n(false);
        cpu.set_h(half_carry);
        cpu.set_c(carry);
        2
    }

    /// ADD SP,e: 0b11101000.
    pub(super) fn op_11101000(cpu: &mut CPU) -> (cycles: u8)
        requires
            old(cpu).wf(),
        ensures
            final(cpu).wf(),
            ran(old(cpu)@, final(cpu)@, cycles, Instruction::AddSpE),
    {
        let sp: u16 = cpu.sp;
        let ee: u8 = cpu.memory_bus.read_byte(cpu.pc);
        cpu.pc = step_address(cpu.pc, 1);
        let (h_flag, c_flag) = offset_flags(sp, ee);
        cpu.sp = offset_address(sp, ee);
        OPCode::set_flags(cpu, false, false, h_flag, c_flag);
        4
    }
}

} // verus!
