//! Operations and their operands, and the table that says which byte
//! names which operation.
use vstd::prelude::*;

verus! {

/// An 8-bit register that an opcode can name.
#[derive(Debug, Clone, Copy, PartialEq, Eq, Structural)]
pub enum Reg8 {
    B,
    C,
    D,
    E,
    H,
    L,
    A,
}

/// A 16-bit register that the arithmetic and load opcodes can name.
#[derive(Debug, Clone, Copy, PartialEq, Eq, Structural)]
pub enum Reg16 {
    BC,
    DE,
    HL,
    SP,
}

/// A register pair that PUSH and POP can name.
#[derive(Debug, Clone, Copy, PartialEq, Eq, Structural)]
pub enum StackReg {
    BC,
    DE,
    HL,
    AF,
}

/// The condition of a conditional jump, call or return.
#[derive(Debug, Clone, Copy, PartialEq, Eq, Structural)]
pub enum Condition {
    NZ,
    Z,
    NC,
    C,
}

/// Where an 8-bit operand lives.
#[derive(Debug, Clone, Copy, PartialEq, Eq, Structural)]
pub enum Operand {
    /// A register.
    Reg(Reg8),
    /// The byte at the address in HL.
    AtHL,
    /// The byte at the address in BC.
    AtBC,
    /// The byte at the address in DE.
    AtDE,
    /// The byte at the address in HL; HL is incremented afterwards.
    AtHLInc,
    /// The byte at the address in HL; HL is decremented afterwards.
    AtHLDec,
    /// The byte at the 16-bit address that follows the opcode.
    AtNN,
    /// The byte at 0xFF00 plus the byte that follows the opcode.
    AtHighN,
    /// The byte at 0xFF00 plus C.
    AtHighC,
    /// The byte that follows the opcode.
    Immediate,
}

/// An operation of the 8-bit arithmetic and logic unit on A.
#[derive(Debug, Clone, Copy, PartialEq, Eq, Structural)]
pub enum AluOp {
    Add,
    Adc,
    Sub,
    Sbc,
    And,
    Xor,
    Or,
    Cp,
}

/// A rotate or shift of the CB page.
#[derive(Debug, Clone, Copy, PartialEq, Eq, Structural)]
pub enum ShiftOp {
    Rlc,
    Rrc,
    Rl,
    Rr,
    Sla,
    Sra,
    Swap,
    Srl,
}

/// An operation with its embedded operands, as an opcode byte names it.
#[derive(Debug, Clone, Copy, PartialEq, Eq, Structural)]
pub enum Instruction {
    Nop,
    Stop,
    Halt,
    Di,
    Ei,
    /// The byte 0xCB: the operation is named by the byte that follows.
    Prefix,
    /// LD destination, source.
    Ld(Operand, Operand),
    /// LD rr,nn.
    LdImm16(Reg16),
    /// LD (nn),SP.
    LdNNSp,
    /// LD SP,HL.
    LdSpHl,
    /// LD HL,SP+e.
    LdHlSpE,
    Push(StackReg),
    Pop(StackReg),
    Alu(AluOp, Operand),
    Inc(Operand),
    Dec(Operand),
    Daa,
    Cpl,
    Ccf,
    Scf,
    /// ADD HL,rr.
    AddHl(Reg16),
    Inc16(Reg16),
    Dec16(Reg16),
    /// ADD SP,e.
    AddSpE,
    Rlca,
    Rrca,
    Rla,
    Rra,
    Jp,
    JpHl,
    JpCc(Condition),
    Jr,
    JrCc(Condition),
    Call,
    CallCc(Condition),
    Ret,
    RetCc(Condition),
    Reti,
    /// RST t: a call to 8 * t.
    Rst(u8),
    Shift(ShiftOp, Operand),
    /// BIT b,operand.
    Bit(u8, Operand),
    /// RES b,operand.
    Res(u8, Operand),
    /// SET b,operand.
    SetBit(u8, Operand),
}

/// The register that a 3-bit index names: B=0, C=1, D=2, E=3, H=4, L=5,
/// A=7. Index 6 names no register.
pub open spec fn reg8_of(index: u8) -> Option<Reg8> {
    if index == 0 {
        Some(Reg8::B)
    } else if index == 1 {
        Some(Reg8::C)
    } else if index == 2 {
        Some(Reg8::D)
    } else if index == 3 {
        Some(Reg8::E)
    } else if index == 4 {
        Some(Reg8::H)
    } else if index == 5 {
        Some(Reg8::L)
    } else if index == 7 {
        Some(Reg8::A)
    } else {
        None
    }
}

/// The operand that a 3-bit index names: a register, or the byte at HL for
/// index 6.
pub open spec fn operand_of(index: u8) -> Operand {
    match reg8_of(index) {
        Some(r) => Operand::Reg(r),
        None => Operand::AtHL,
    }
}

/// The pair that a 2-bit index names in arithmetic and loads: BC=0, DE=1,
/// HL=2, SP=3.
pub open spec fn reg16_of(index: u8) -> Reg16 {
    if index == 0 {
        Reg16::BC
    } else if index == 1 {
        Reg16::DE
    } else if index == 2 {
        Reg16::HL
    } else {
        Reg16::SP
    }
}

/// The pair that a 2-bit index names in PUSH and POP: BC=0, DE=1, HL=2,
/// AF=3.
pub open spec fn stack_reg_of(index: u8) -> StackReg {
    if index == 0 {
        StackReg::BC
    } else if index == 1 {
        StackReg::DE
    } else if index == 2 {
        StackReg::HL
    } else {
        StackReg::AF
    }
}

/// The condition that a 2-bit index names: NZ=0, Z=1, NC=2, C=3.
pub open spec fn condition_of(index: u8) -> Condition {
    if index == 0 {
        Condition::NZ
    } else if index == 1 {
        Condition::Z
    } else if index == 2 {
        Condition::NC
    } else {
        Condition::C
    }
}

/// The operand of the loads between A and memory through a register pair:
/// (BC)=0, (DE)=1, (HL+)=2, (HL-)=3.
pub open spec fn indirect_of(index: u8) -> Operand {
    if index == 0 {
        Operand::AtBC
    } else if index == 1 {
        Operand::AtDE
    } else if index == 2 {
        Operand::AtHLInc
    } else {
        Operand::AtHLDec
    }
}

/// The arithmetic operation that a 3-bit index names.
pub open spec fn alu_op_of(index: u8) -> AluOp {
    if index == 0 {
        AluOp::Add
    } else if index == 1 {
        AluOp::Adc
    } else if index == 2 {
        AluOp::Sub
    } else if index == 3 {
        AluOp::Sbc
    } else if index == 4 {
        AluOp::And
    } else if index == 5 {
        AluOp::Xor
    } else if index == 6 {
        AluOp::Or
    } else {
        AluOp::Cp
    }
}

/// The rotate or shift that a 3-bit index names.
pub open spec fn shift_op_of(index: u8) -> ShiftOp {
    if index == 0 {
        ShiftOp::Rlc
    } else if index == 1 {
        ShiftOp::Rrc
    } else if index == 2 {
        ShiftOp::Rl
    } else if index == 3 {
        ShiftOp::Rr
    } else if index == 4 {
        ShiftOp::Sla
    } else if index == 5 {
        ShiftOp::Sra
    } else if index == 6 {
        ShiftOp::Swap
    } else {
        ShiftOp::Srl
    }
}

/// Whether a byte names no operation on the base page.
pub open spec fn is_illegal(opcode: u8) -> bool {
    opcode == 0xD3 || opcode == 0xDB || opcode == 0xDD || opcode == 0xE3 || opcode == 0xE4
        || opcode == 0xEB || opcode == 0xEC || opcode == 0xED || opcode == 0xF4 || opcode == 0xFC
        || opcode == 0xFD
}

/// The operation that a byte names on the base page. The byte is read as
/// the fields `xx yyy zzz`, with `yyy` also read as `pp q`.
pub open spec fn decode_base(opcode: u8) -> Option<Instruction> {
    let x = opcode / 64;
    let y = (opcode / 8) % 8;
    let z = opcode % 8;
    let p = y / 2;
    let q = y % 2;
    let a = Operand::Reg(Reg8::A);
    if x == 0 {
        if z == 0 {
            if y == 0 {
                Some(Instruction::Nop)
            } else if y == 1 {
                Some(Instruction::LdNNSp)
            } else if y == 2 {
                Some(Instruction::Stop)
            } else if y == 3 {
                Some(Instruction::Jr)
            } else {
                Some(Instruction::JrCc(condition_of(y % 4)))
            }
        } else if z == 1 {
            if q == 0 {
                Some(Instruction::LdImm16(reg16_of(p)))
            } else {
                Some(Instruction::AddHl(reg16_of(p)))
            }
        } else if z == 2 {
            if q == 0 {
                Some(Instruction::Ld(indirect_of(p), a))
            } else {
                Some(Instruction::Ld(a, indirect_of(p)))
            }
        } else if z == 3 {
            if q == 0 {
                Some(Instruction::Inc16(reg16_of(p)))
            } else {
                Some(Instruction::Dec16(reg16_of(p)))
            }
        } else if z == 4 {
            Some(Instruction::Inc(operand_of(y)))
        } else if z == 5 {
            Some(Instruction::Dec(operand_of(y)))
        } else if z == 6 {
            Some(Instruction::Ld(operand_of(y), Operand::Immediate))
        } else if y == 0 {
            Some(Instruction::Rlca)
        } else if y == 1 {
            Some(Instruction::Rrca)
        } else if y == 2 {
            Some(Instruction::Rla)
        } else if y == 3 {
            Some(Instruction::Rra)
        } else if y == 4 {
            Some(Instruction::Daa)
        } else if y == 5 {
            Some(Instruction::Cpl)
        } else if y == 6 {
            Some(Instruction::Scf)
        } else {
            Some(Instruction::Ccf)
        }
    } else if x == 1 {
        if opcode == 0x76 {
            Some(Instruction::Halt)
        } else {
            Some(Instruction::Ld(operand_of(y), operand_of(z)))
        }
    } else if x == 2 {
        Some(Instruction::Alu(alu_op_of(y), operand_of(z)))
    } else if z == 0 {
        if y < 4 {
            Some(Instruction::RetCc(condition_of(y)))
        } else if y == 4 {
            Some(Instruction::Ld(Operand::AtHighN, a))
        } else if y == 5 {
            Some(Instruction::AddSpE)
        } else if y == 6 {
            Some(Instruction::Ld(a, Operand::AtHighN))
        } else {
            Some(Instruction::LdHlSpE)
        }
    } else if z == 1 {
        if q == 0 {
            Some(Instruction::Pop(stack_reg_of(p)))
        } else if p == 0 {
            Some(Instruction::Ret)
        } else if p == 1 {
            Some(Instruction::Reti)
        } else if p == 2 {
            Some(Instruction::JpHl)
        } else {
            Some(Instruction::LdSpHl)
        }
    } else if z == 2 {
        if y < 4 {
            Some(Instruction::JpCc(condition_of(y)))
        } else if y == 4 {
            Some(Instruction::Ld(Operand::AtHighC, a))
        } else if y == 5 {
            Some(Instruction::Ld(Operand::AtNN, a))
        } else if y == 6 {
            Some(Instruction::Ld(a, Operand::AtHighC))
        } else {
            Some(Instruction::Ld(a, Operand::AtNN))
        }
    } else if z == 3 {
        if y == 0 {
            Some(Instruction::Jp)
        } else if y == 1 {
            Some(Instruction::Prefix)
        } else if y == 6 {
            Some(Instruction::Di)
        } else if y == 7 {
            Some(Instruction::Ei)
        } else {
            None
        }
    } else if z == 4 {
        if y < 4 {
            Some(Instruction::CallCc(condition_of(y)))
        } else {
            None
        }
    } else if z == 5 {
        if q == 0 {
            Some(Instruction::Push(stack_reg_of(p)))
        } else if p == 0 {
            Some(Instruction::Call)
        } else {
            None
        }
    } else if z == 6 {
        Some(Instruction::Alu(alu_op_of(y), Operand::Immediate))
    } else {
        Some(Instruction::Rst(y))
    }
}

/// The operation that a byte names on the CB page: every byte names one.
pub open spec fn decode_cb(opcode: u8) -> Instruction {
    let x = opcode / 64;
    let y = (opcode / 8) % 8;
    let z = opcode % 8;
    if x == 0 {
        Instruction::Shift(shift_op_of(y), operand_of(z))
    } else if x == 1 {
        Instruction::Bit(y, operand_of(z))
    } else if x == 2 {
        Instruction::Res(y, operand_of(z))
    } else {
        Instruction::SetBit(y, operand_of(z))
    }
}

/// The operation that a byte names, on the base page or on the CB page.
pub open spec fn decode(opcode: u8, is_cb: bool) -> Option<Instruction> {
    if is_cb {
        Some(decode_cb(opcode))
    } else {
        decode_base(opcode)
    }
}

/// Every byte of the base page names exactly one operation, except the
/// eleven bytes that name none; every byte of the CB page names one.
pub proof fn law_decoder_is_total(opcode: u8)
    ensures
        decode(opcode, false) is None <==> is_illegal(opcode),
        decode(opcode, true) is Some,
{
}

/// The fields of an opcode byte.
pub struct Fields {
    pub x: u8,
    pub y: u8,
    pub z: u8,
    pub p: u8,
    pub q: u8,
}

impl Fields {
    /// Splits an opcode byte `xx yyy zzz` into its fields; `yyy` is also
    /// `pp q`.
    pub fn of(opcode: u8) -> (fields: Fields)
        ensures
            fields.x == opcode / 64,
            fields.y == (opcode / 8) % 8,
            fields.z == opcode % 8,
            fields.p == fields.y / 2,
            fields.q == fields.y % 2,
    {
        assert(opcode >> 6 == opcode / 64 && (opcode >> 3) & 7 == (opcode / 8) % 8 && opcode & 7
            == opcode % 8 && (opcode >> 4) & 3 == ((opcode / 8) % 8) / 2 && (opcode >> 3) & 1 == ((
        opcode / 8) % 8) % 2) by (bit_vector);
        Fields {
            x: opcode >> 6,
            y: (opcode >> 3) & 7,
            z: opcode & 7,
            p: (opcode >> 4) & 3,
            q: (opcode >> 3) & 1,
        }
    }
}

impl Reg8 {
    /// The register that a 3-bit index names, if it names one.
    pub fn from_index(index: u8) -> (register: Option<Reg8>)
        ensures
            register == reg8_of(index),
    {
        match index {
            0 => Some(Reg8::B),
            1 => Some(Reg8::C),
            2 => Some(Reg8::D),
            3 => Some(Reg8::E),
            4 => Some(Reg8::H),
            5 => Some(Reg8::L),
            7 => Some(Reg8::A),
            _ => None,
        }
    }
}

impl Operand {
    pub fn from_index(index: u8) -> (operand: Operand)
        ensures
            operand == operand_of(index),
    {
        match Reg8::from_index(index) {
            Some(r) => Operand::Reg(r),
            None => Operand::AtHL,
        }
    }

    pub fn indirect(index: u8) -> (operand: Operand)
        ensures
            operand == indirect_of(index),
    {
        match index {
            0 => Operand::AtBC,
            1 => Operand::AtDE,
            2 => Operand::AtHLInc,
            _ => Operand::AtHLDec,
        }
    }
}

impl Reg16 {
    pub fn from_index(index: u8) -> (pair: Reg16)
        ensures
            pair == reg16_of(index),
    {
        match index {
            0 => Reg16::BC,
            1 => Reg16::DE,
            2 => Reg16::HL,
            _ => Reg16::SP,
        }
    }
}

impl StackReg {
    pub fn from_index(index: u8) -> (pair: StackReg)
        ensures
            pair == stack_reg_of(index),
    {
        match index {
            0 => StackReg::BC,
            1 => StackReg::DE,
            2 => StackReg::HL,
            _ => StackReg::AF,
        }
    }
}

impl Condition {
    pub fn from_index(index: u8) -> (condition: Condition)
        ensures
            condition == condition_of(index),
    {
        match index {
            0 => Condition::NZ,
            1 => Condition::Z,
            2 => Condition::NC,
            _ => Condition::C,
        }
    }
}

impl AluOp {
    pub fn from_index(index: u8) -> (op: AluOp)
        ensures
            op == alu_op_of(index),
    {
        match index {
            0 => AluOp::Add,
            1 => AluOp::Adc,
            2 => AluOp::Sub,
            3 => AluOp::Sbc,
            4 => AluOp::And,
            5 => AluOp::Xor,
            6 => AluOp::Or,
            _ => AluOp::Cp,
        }
    }
}

impl ShiftOp {
    pub fn from_index(index: u8) -> (op: ShiftOp)
        ensures
            op == shift_op_of(index),
    {
        match index {
            0 => ShiftOp::Rlc,
            1 => ShiftOp::Rrc,
            2 => ShiftOp::Rl,
            3 => ShiftOp::Rr,
            4 => ShiftOp::Sla,
            5 => ShiftOp::Sra,
            6 => ShiftOp::Swap,
            _ => ShiftOp::Srl,
        }
    }
}

} // verus!
