//! The interpreter's access to registers by index, its fetches, and its
//! helpers on bits.
use vstd::prelude::*;
use crate::machine::cpu::CPU;
use crate::machine::memory::step_address;
use crate::machine::Error;
use crate::opcodes::instruction::{condition_of, reg16_of, reg8_of, stack_reg_of};

verus! {

/// The instruction interpreter: the decoder and one handler for each opcode
/// pattern.
pub struct OPCode;

/// The bits `bits[0..upto]` joined, the first bit highest: each entry is
/// shifted to its place, counted from the end of the whole sequence, and
/// the shifted entries are or-ed.
pub open spec fn joined_bits(bits: Seq<u8>, upto: int) -> u8
    decreases upto,
{
    if upto <= 0 {
        0
    } else {
        joined_bits(bits, upto - 1) | (bits[upto - 1] << ((bits.len() - upto) as u8))
    }
}

/// As `joined_bits`, with each shifted entry widened to 16 bits.
pub open spec fn joined_bits_u16(bits: Seq<u8>, upto: int) -> u16
    decreases upto,
{
    if upto <= 0 {
        0
    } else {
        joined_bits_u16(bits, upto - 1) | ((bits[upto - 1] << ((bits.len() - upto) as u8)) as u16)
    }
}

/// Eight bits that are or-ed at their places give the byte that they are
/// the bits of.
proof fn lemma_bits_make_byte(
    value: u8,
    b0: u8,
    b1: u8,
    b2: u8,
    b3: u8,
    b4: u8,
    b5: u8,
    b6: u8,
    b7: u8,
)
    by (bit_vector)
    requires
        b0 == (value >> 7u8) & 1,
        b1 == (value >> 6u8) & 1,
        b2 == (value >> 5u8) & 1,
        b3 == (value >> 4u8) & 1,
        b4 == (value >> 3u8) & 1,
        b5 == (value >> 2u8) & 1,
        b6 == (value >> 1u8) & 1,
        b7 == (value >> 0u8) & 1,
    ensures
        ((((((((0u8 | (b0 << 7u8)) | (b1 << 6u8)) | (b2 << 5u8)) | (b3 << 4u8)) | (b4 << 3u8)) | (b5
            << 2u8)) | (b6 << 1u8)) | (b7 << 0u8)) == value,
{
}

/// The bits of a byte, joined again, are the byte.
pub proof fn law_bits_round_trip(value: u8, bits: Seq<u8>)
    requires
        bits.len() == 8,
        forall|i: int| 0 <= i < 8 ==> bits[i] == (value >> ((7 - i) as u8)) & 1,
    ensures
        joined_bits(bits, 8) == value,
{
    reveal_with_fuel(joined_bits, 9);
    lemma_bits_make_byte(
        value,
        bits[0],
        bits[1],
        bits[2],
        bits[3],
        bits[4],
        bits[5],
        bits[6],
        bits[7],
    );
}

impl OPCode {
    /// The 8-bit register that an index names, for reading and writing.
    /// Index 6 and indexes above 7 name none.
    pub fn get_register_by_index<'a>(index: u8, cpu: &'a mut CPU) -> (register: Result<
        &'a mut u8,
        Error,
    >)
        ensures
            match register {
                Ok(r) => reg8_of(index) is Some && *r == old(cpu)@.reg(reg8_of(index).unwrap())
                    && final(cpu)@ == old(cpu)@.with_reg(reg8_of(index).unwrap(), *final(r))
                    && final(cpu).memory_bus == old(cpu).memory_bus,
                Err(e) => reg8_of(index) is None && e == Error::OPCodeParseError && *final(cpu)
                    == *old(cpu),
            },
    {
        match index {
            0b111 => Ok(&mut cpu.a),
            0b000 => Ok(&mut cpu.b),
            0b001 => Ok(&mut cpu.c),
            0b010 => Ok(&mut cpu.d),
            0b011 => Ok(&mut cpu.e),
            0b100 => Ok(&mut cpu.h),
            0b101 => Ok(&mut cpu.l),
            _ => Err(Error::OPCodeParseError),
        }
    }

    /// The value of the 8-bit register that an index names.
    pub(crate) fn read_register(index: u8, cpu: &mut CPU) -> (value: u8)
        requires
            reg8_of(index) is Some,
        ensures
            value == old(cpu)@.reg(reg8_of(index).unwrap()),
            final(cpu)@ == old(cpu)@,
            final(cpu).memory_bus == old(cpu).memory_bus,
    {
        match OPCode::get_register_by_index(index, cpu) {
            Ok(register) => *register,
            Err(_) => 0,
        }
    }

    /// Sets the 8-bit register that an index names.
    pub(crate) fn write_register(index: u8, cpu: &mut CPU, value: u8)
        requires
            reg8_of(index) is Some,
        ensures
            final(cpu)@ == old(cpu)@.with_reg(reg8_of(index).unwrap(), value),
            final(cpu).memory_bus == old(cpu).memory_bus,
    {
        match OPCode::get_register_by_index(index, cpu) {
            Ok(register) => {
                *register = value;
            },
            Err(_) => {},
        }
    }

    /// Whether the condition that an index names holds: NZ=0, Z=1, NC=2,
    /// C=3.
    pub(crate) fn condition_holds(index: u8, cpu: &CPU) -> (holds: bool)
        requires
            index < 4,
        ensures
            holds == cpu@.holds(condition_of(index)),
    {
        match index {
            0b00 => !cpu.z(),
            0b01 => cpu.z(),
            0b10 => !cpu.c(),
            _ => cpu.c(),
        }
    }

    /// Sets the four flags at once.
    pub(crate) fn set_flags(cpu: &mut CPU, z: bool, n: bool, h: bool, c: bool)
        ensures
            final(cpu)@ == old(cpu)@.with_flags(z, n, h, c),
            final(cpu).memory_bus == old(cpu).memory_bus,
    {
        cpu.set_z(z);
        cpu.set_n(n);
        cpu.set_h(h);
        cpu.set_c(c);
    }

    /// Sets the 16-bit register that an index names: BC=0, DE=1, HL=2, SP=3.
    pub fn set_16b_register_by_index(index: u8, cpu: &mut CPU, value: u16)
        requires
            index < 4,
        ensures
            final(cpu)@ == old(cpu)@.with_reg16(reg16_of(index), value),
            final(cpu).memory_bus == old(cpu).memory_bus,
    {
        match index {
            0b00 => cpu.set_bc(value),
            0b01 => cpu.set_de(value),
            0b10 => cpu.set_hl(value),
            _ => cpu.set_sp(value),
        }
    }

    /// The 16-bit register that an index names: BC=0, DE=1, HL=2, SP=3.
    pub fn get_16b_register_by_index(index: u8, cpu: &CPU) -> (value: u16)
        requires
            index < 4,
        ensures
            value == cpu@.reg16(reg16_of(index)),
    {
        match index {
            0b00 => cpu.bc(),
            0b01 => cpu.de(),
            0b10 => cpu.hl(),
            _ => cpu.sp,
        }
    }

    /// Sets the pair that an index names for PUSH and POP: BC=0, DE=1,
    /// HL=2, AF=3.
    pub fn set_stack_register_by_index(index: u8, cpu: &mut CPU, value: u16)
        requires
            index < 4,
        ensures
            final(cpu)@ == old(cpu)@.with_stack_reg(stack_reg_of(index), value),
            final(cpu).memory_bus == old(cpu).memory_bus,
    {
        match index {
            0b00 => cpu.set_bc(value),
            0b01 => cpu.set_de(value),
            0b10 => cpu.set_hl(value),
            _ => cpu.set_af(value),
        }
    }

    /// The pair that an index names for PUSH and POP: BC=0, DE=1, HL=2,
    /// AF=3.
    pub fn get_stack_register_by_index(index: u8, cpu: &CPU) -> (value: u16)
        requires
            index < 4,
        ensures
            value == cpu@.stack_reg(stack_reg_of(index)),
    {
        match index {
            0b00 => cpu.bc(),
            0b01 => cpu.de(),
            0b10 => cpu.hl(),
            _ => cpu.af(),
        }
    }

    /// Reads the byte at the program counter and moves past it.
    pub fn fetch_opcode_u8(cpu: &mut CPU) -> (opcode: Result<u8, Error>)
        requires
            old(cpu).wf(),
        ensures
            final(cpu).wf(),
            opcode == Ok::<u8, Error>(old(cpu)@.imm8()),
            final(cpu)@ == old(cpu)@.skip(1),
    {
        let opcode: u8 = cpu.memory_bus.read_byte(cpu.pc);
        cpu.pc = step_address(cpu.pc, 1);
        Ok(opcode)
    }

    /// Reads the little-endian word at the program counter and moves past it.
    pub fn fetch_opcode_u16(cpu: &mut CPU) -> (opcode: Result<u16, Error>)
        requires
            old(cpu).wf(),
        ensures
            final(cpu).wf(),
            opcode == Ok::<u16, Error>(old(cpu)@.imm16()),
            final(cpu)@ == old(cpu)@.skip(2),
    {
        let opcode: u16 = cpu.memory_bus.read_word(cpu.pc);
        cpu.pc = step_address(cpu.pc, 2);
        Ok(opcode)
    }

    /// The eight bits of a byte, bit 7 first.
    pub fn parse_bits_u8(opcode: u8) -> (bits: [u8; 8])
        ensures
            forall|i: int| 0 <= i < 8 ==> bits[i] == (opcode >> ((7 - i) as u8)) & 1,
    {
        let mut opcode_bits: [u8; 8] = [0; 8];
        let mut i: usize = 0;
        while i < 8
            invariant
                i <= 8,
                forall|j: int| 0 <= j < i ==> opcode_bits[j] == (opcode >> ((7 - j) as u8)) & 1,
            decreases 8 - i,
        {
            opcode_bits[i] = (opcode >> ((7 - i) as u8)) & 1;
            i = i + 1;
        }
        opcode_bits
    }

    /// The sixteen bits of a word, bit 15 first.
    pub fn parse_bits_u16(opcode: u16) -> (bits: [u8; 16])
        ensures
            forall|i: int| 0 <= i < 16 ==> bits[i] as u16 == (opcode >> ((15 - i) as u16)) & 1,
    {
        let mut opcode_bits: [u8; 16] = [0u8; 16];
        let mut i: usize = 0;
        while i < 16
            invariant
                i <= 16,
                forall|j: int| 0 <= j < i ==> opcode_bits[j] as u16 == (opcode >> ((15 - j) as u16)) & 1,
            decreases 16 - i,
        {
            let shift: u16 = (15 - i) as u16;
            let bit: u16 = (opcode >> shift) & 1;
            assert(bit <= 1) by (bit_vector)
                requires
                    bit == (opcode >> shift) & 1,
            ;
            opcode_bits[i] = bit as u8;
            i = i + 1;
        }
        opcode_bits
    }

    /// Joins up to eight bits into a byte, the first bit highest.
    pub fn concat_bits(bits: &[u8]) -> (value: u8)
        requires
            bits.len() <= 8,
        ensures
            value == joined_bits(bits@, bits.len() as int),
    {
        let mut result: u8 = 0;
        let bit_len: usize = bits.len();
        let mut i: usize = 0;
        while i < bit_len
            invariant
                i <= bit_len,
                bit_len == bits.len(),
                bit_len <= 8,
                result == joined_bits(bits@, i as int),
            decreases bit_len - i,
        {
            result = result | (bits[i] << ((bit_len - i - 1) as u8));
            i = i + 1;
        }
        result
    }

    /// Joins up to eight bits into a word, the first bit highest.
    pub fn concat_bits_u16(bits: &[u8]) -> (value: u16)
        requires
            bits.len() <= 8,
        ensures
            value == joined_bits_u16(bits@, bits.len() as int),
    {
        let mut result: u16 = 0u16;
        let bit_len: usize = bits.len();
        let mut i: usize = 0;
        while i < bit_len
            invariant
                i <= bit_len,
                bit_len == bits.len(),
                bit_len <= 8,
                result == joined_bits_u16(bits@, i as int),
            decreases bit_len - i,
        {
            result = result | ((bits[i] << ((bit_len - i - 1) as u8)) as u16);
            i = i + 1;
        }
        result
    }
}

} // verus!
