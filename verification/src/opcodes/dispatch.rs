//! The decoder, and the dispatch of each opcode pattern to its handler.
use vstd::prelude::*;
use crate::machine::cpu::CPU;
use crate::machine::memory::step_address;
use crate::opcodes::instruction::{
    decode, decode_base, decode_cb, is_illegal, AluOp, Condition, Fields, Instruction, Operand, Reg16, Reg8, ShiftOp, StackReg,
};
use crate::opcodes::opcode::OPCode;
use crate::opcodes::semantics::ran;

verus! {

impl OPCode {
    /// The operation that a byte names on the CB page.
    pub fn decode_cb_page(opcode: u8) -> (instruction: Instruction)
        ensures
            instruction == decode_cb(opcode),
    {
        let f = Fields::of(opcode);
        let operand = Operand::from_index(f.z);
        if f.x == 0 {
            Instruction::Shift(ShiftOp::from_index(f.y), operand)
        } else if f.x == 1 {
            Instruction::Bit(f.y, operand)
        } else if f.x == 2 {
            Instruction::Res(f.y, operand)
        } else {
            Instruction::SetBit(f.y, operand)
        }
    }

    /// The operation that a byte names with the fields `00 yyy zzz`.
    fn decode_first_quarter(f: Fields) -> (instruction: Instruction)
        requires
            f.x == 0,
            f.y < 8,
            f.z < 8,
            f.p == f.y / 2,
            f.q == f.y % 2,
        ensures
            Some(instruction) == decode_base((f.y * 8 + f.z) as u8),
    {
        let a = Operand::Reg(Reg8::A);
        if f.z == 0 {
            if f.y == 0 {
                Instruction::Nop
            } else if f.y == 1 {
                Instruction::LdNNSp
            } else if f.y == 2 {
                Instruction::Stop
            } else if f.y == 3 {
                Instruction::Jr
            } else {
                Instruction::JrCc(Condition::from_index(f.y % 4))
            }
        } else if f.z == 1 {
            if f.q == 0 {
                Instruction::LdImm16(Reg16::from_index(f.p))
            } else {
                Instruction::AddHl(Reg16::from_index(f.p))
            }
        } else if f.z == 2 {
            if f.q == 0 {
                Instruction::Ld(Operand::indirect(f.p), a)
            } else {
                Instruction::Ld(a, Operand::indirect(f.p))
            }
        } else if f.z == 3 {
            if f.q == 0 {
                Instruction::Inc16(Reg16::from_index(f.p))
            } else {
                Instruction::Dec16(Reg16::from_index(f.p))
            }
        } else if f.z == 4 {
            Instruction::Inc(Operand::from_index(f.y))
        } else if f.z == 5 {
            Instruction::Dec(Operand::from_index(f.y))
        } else if f.z == 6 {
            Instruction::Ld(Operand::from_index(f.y), Operand::Immediate)
        } else if f.y == 0 {
            Instruction::Rlca
        } else if f.y == 1 {
            Instruction::Rrca
        } else if f.y == 2 {
            Instruction::Rla
        } else if f.y == 3 {
            Instruction::Rra
        } else if f.y == 4 {
            Instruction::Daa
        } else if f.y == 5 {
            Instruction::Cpl
        } else if f.y == 6 {
            Instruction::Scf
        } else {
            Instruction::Ccf
        }
    }

    /// The operation that a byte names with the fields `11 yyy zzz`, if it
    /// names one.
    fn decode_last_quarter(f: Fields) -> (instruction: Option<Instruction>)
        requires
            f.x == 3,
            f.y < 8,
            f.z < 8,
            f.p == f.y / 2,
            f.q == f.y % 2,
        ensures
            instruction == decode_base((192 + f.y * 8 + f.z) as u8),
    {
        let a = Operand::Reg(Reg8::A);
        if f.z == 0 {
            if f.y < 4 {
                Some(Instruction::RetCc(Condition::from_index(f.y)))
            } else if f.y == 4 {
                Some(Instruction::Ld(Operand::AtHighN, a))
            } else if f.y == 5 {
                Some(Instruction::AddSpE)
            } else if f.y == 6 {
                Some(Instruction::Ld(a, Operand::AtHighN))
            } else {
                Some(Instruction::LdHlSpE)
            }
        } else if f.z == 1 {
            if f.q == 0 {
                Some(Instruction::Pop(StackReg::from_index(f.p)))
            } else if f.p == 0 {
                Some(Instruction::Ret)
            } else if f.p == 1 {
                Some(Instruction::Reti)
            } else if f.p == 2 {
                Some(Instruction::JpHl)
            } else {
                Some(Instruction::LdSpHl)
            }
        } else if f.z == 2 {
            if f.y < 4 {
                Some(Instruction::JpCc(Condition::from_index(f.y)))
            } else if f.y == 4 {
                Some(Instruction::Ld(Operand::AtHighC, a))
            } else if f.y == 5 {
                Some(Instruction::Ld(Operand::AtNN, a))
            } else if f.y == 6 {
                Some(Instruction::Ld(a, Operand::AtHighC))
            } else {
                Some(Instruction::Ld(a, Operand::AtNN))
            }
        } else if f.z == 3 {
            if f.y == 0 {
                Some(Instruction::Jp)
            } else if f.y == 1 {
                Some(Instruction::Prefix)
            } else if f.y == 6 {
                Some(Instruction::Di)
            } else if f.y == 7 {
                Some(Instruction::Ei)
            } else {
                None
            }
        } else if f.z == 4 {
            if f.y < 4 {
                Some(Instruction::CallCc(Condition::from_index(f.y)))
            } else {
                None
            }
        } else if f.z == 5 {
            if f.q == 0 {
                Some(Instruction::Push(StackReg::from_index(f.p)))
            } else if f.p == 0 {
                Some(Instruction::Call)
            } else {
                None
            }
        } else if f.z == 6 {
            Some(Instruction::Alu(AluOp::from_index(f.y), Operand::Immediate))
        } else {
            Some(Instruction::Rst(f.y))
        }
    }

    /// The operation that a byte names, on the base page or, with `is_cb`,
    /// on the CB page. Eleven bytes of the base page name none.
    pub fn decode(opcode: u8, is_cb: bool) -> (instruction: Option<Instruction>)
        ensures
            instruction == decode(opcode, is_cb),
            instruction is None <==> !is_cb && is_illegal(opcode),
    {
        if is_cb {
            return Some(OPCode::decode_cb_page(opcode));
        }
        let f = Fields::of(opcode);
        if f.x == 0 {
            Some(OPCode::decode_first_quarter(f))
        } else if f.x == 1 {
            if opcode == 0x76 {
                Some(Instruction::Halt)
            } else {
                Some(Instruction::Ld(Operand::from_index(f.y), Operand::from_index(f.z)))
            }
        } else if f.x == 2 {
            Some(Instruction::Alu(AluOp::from_index(f.y), Operand::from_index(f.z)))
        } else {
            OPCode::decode_last_quarter(f)
        }
    }
}

impl OPCode {
    /// Runs the operation that a byte names on the CB page.
    fn exec_cb_page(cpu: &mut CPU, opcode: u8) -> (cycles: u8)
        requires
            old(cpu).wf(),
        ensures
            final(cpu).wf(),
            ran(old(cpu)@, final(cpu)@, cycles, decode_cb(opcode)),
    {
        let f = Fields::of(opcode);
        if f.x == 0 {
            if f.z == 6 {
                if f.y == 0 {
                    OPCode::cb_op_00000110(cpu)
                } else if f.y == 1 {
                    OPCode::cb_op_00001110(cpu)
                } else if f.y == 2 {
                    OPCode::cb_op_00010110(cpu)
                } else if f.y == 3 {
                    OPCode::cb_op_00011110(cpu)
                } else if f.y == 4 {
                    OPCode::cb_op_00100110(cpu)
                } else if f.y == 5 {
                    OPCode::cb_op_00101110(cpu)
                } else if f.y == 6 {
                    OPCode::cb_op_00110110(cpu)
                } else {
                    OPCode::cb_op_00111110(cpu)
                }
            } else {
                if f.y == 0 {
                    OPCode::cb_op_00000xxx(cpu, f.z)
                } else if f.y == 1 {
                    OPCode::cb_op_00001xxx(cpu, f.z)
                } else if f.y == 2 {
                    OPCode::cb_op_00010xxx(cpu, f.z)
                } else if f.y == 3 {
                    OPCode::cb_op_00011xxx(cpu, f.z)
                } else if f.y == 4 {
                    OPCode::cb_op_00100xxx(cpu, f.z)
                } else if f.y == 5 {
                    OPCode::cb_op_00101xxx(cpu, f.z)
                } else if f.y == 6 {
                    OPCode::cb_op_00110xxx(cpu, f.z)
                } else {
                    OPCode::cb_op_00111xxx(cpu, f.z)
                }
            }
        } else if f.x == 1 {
            if f.z == 6 {
                OPCode::cb_op_01xxx110(cpu, f.y)
            } else {
                OPCode::cb_op_01xxxxxx(cpu, f.y, f.z)
            }
        } else if f.x == 2 {
            if f.z == 6 {
                OPCode::cb_op_10xxx110(cpu, f.y)
            } else {
                OPCode::cb_op_10xxxxxx(cpu, f.y, f.z)
            }
        } else if f.z == 6 {
            OPCode::cb_op_11xxx110(cpu, f.y)
        } else {
            OPCode::cb_op_11xxxxxx(cpu, f.y, f.z)
        }
    }

    /// The prefix: 0b11001011. Fetches the byte that follows and runs the
    /// operation that it names on the CB page.
    pub(super) fn op_11001011(cpu: &mut CPU) -> (cycles: u8)
        requires
            old(cpu).wf(),
        ensures
            final(cpu).wf(),
            ran(old(cpu)@, final(cpu)@, cycles, Instruction::Prefix),
    {
        let second_byte: u8 = cpu.memory_bus.read_byte(cpu.pc);
        cpu.pc = step_address(cpu.pc, 1);
        OPCode::exec_cb_page(cpu, second_byte)
    }

    /// Runs an operation with the fields `00 yyy zzz`.
    fn exec_first_quarter(cpu: &mut CPU, opcode: u8) -> (cycles: u8)
        requires
            old(cpu).wf(),
            opcode / 64 == 0,
        ensures
            final(cpu).wf(),
            decode_base(opcode) is Some,
            ran(old(cpu)@, final(cpu)@, cycles, decode_base(opcode).unwrap()),
    {
        let f = Fields::of(opcode);
        if f.z == 0 {
            if f.y == 0 {
                OPCode::op_00000000()
            } else if f.y == 1 {
                OPCode::op_00001000(cpu)
            } else if f.y == 2 {
                OPCode::op_00010000_00000000(cpu)
            } else if f.y == 3 {
                OPCode::op_00011000(cpu)
            } else {
                OPCode::op_001xx000(cpu, f.y % 4)
            }
        } else if f.z == 1 {
            if f.q == 0 {
                OPCode::op_00xx0001(cpu, f.p)
            } else {
                OPCode::op_00xx1001(cpu, f.p)
            }
        } else if f.z == 2 {
            if f.q == 0 {
                if f.p == 0 {
                    OPCode::op_00000010(cpu)
                } else if f.p == 1 {
                    OPCode::op_00010010(cpu)
                } else if f.p == 2 {
                    OPCode::op_00100010(cpu)
                } else {
                    OPCode::op_00110010(cpu)
                }
            } else {
                if f.p == 0 {
                    OPCode::op_00001010(cpu)
                } else if f.p == 1 {
                    OPCode::op_00011010(cpu)
                } else if f.p == 2 {
                    OPCode::op_00101010(cpu)
                } else {
                    OPCode::op_00111010(cpu)
                }
            }
        } else if f.z == 3 {
            if f.q == 0 {
                OPCode::op_00xx0011(cpu, f.p)
            } else {
                OPCode::op_00xx1011(cpu, f.p)
            }
        } else if f.z == 4 {
            if f.y == 6 {
                OPCode::op_00110100(cpu)
            } else {
                OPCode::op_00xxx100(cpu, f.y)
            }
        } else if f.z == 5 {
            if f.y == 6 {
                OPCode::op_00110101(cpu)
            } else {
                OPCode::op_00xxx101(cpu, f.y)
            }
        } else if f.z == 6 {
            if f.y == 6 {
                OPCode::op_00110110(cpu)
            } else {
                OPCode::op_00xxx110(cpu, f.y)
            }
        } else {
            if f.y == 0 {
                OPCode::cb_op_00000111(cpu)
            } else if f.y == 1 {
                OPCode::cb_op_00001111(cpu)
            } else if f.y == 2 {
                OPCode::cb_op_00010111(cpu)
            } else if f.y == 3 {
                OPCode::cb_op_00011111(cpu)
            } else if f.y == 4 {
                OPCode::op_00100111(cpu)
            } else if f.y == 5 {
                OPCode::op_00101111(cpu)
            } else if f.y == 6 {
                OPCode::op_00110111(cpu)
            } else {
                OPCode::op_00111111(cpu)
            }
        }
    }

    /// Runs a load between registers and the byte at HL, or HALT: the
    /// fields `01 yyy zzz`.
    fn exec_second_quarter(cpu: &mut CPU, opcode: u8) -> (cycles: u8)
        requires
            old(cpu).wf(),
            opcode / 64 == 1,
        ensures
            final(cpu).wf(),
            decode_base(opcode) is Some,
            ran(old(cpu)@, final(cpu)@, cycles, decode_base(opcode).unwrap()),
    {
        let f = Fields::of(opcode);
        if opcode == 0x76 {
            OPCode::op_01110110(cpu)
        } else if f.z == 6 {
            OPCode::op_01xxx110(cpu, f.y)
        } else if f.y == 6 {
            OPCode::op_01110xxx(cpu, f.z)
        } else {
            OPCode::op_01xxxyyy(cpu, f.y, f.z)
        }
    }

    /// Runs an operation of the arithmetic and logic unit on A and a
    /// register or the byte at HL: the fields `10 yyy zzz`.
    fn exec_third_quarter(cpu: &mut CPU, opcode: u8) -> (cycles: u8)
        requires
            old(cpu).wf(),
            opcode / 64 == 2,
        ensures
            final(cpu).wf(),
            decode_base(opcode) is Some,
            ran(old(cpu)@, final(cpu)@, cycles, decode_base(opcode).unwrap()),
    {
        let f = Fields::of(opcode);
        if f.z == 6 {
            if f.y == 0 {
                OPCode::op_10000110(cpu)
            } else if f.y == 1 {
                OPCode::op_10001110(cpu)
            } else if f.y == 2 {
                OPCode::op_10010110(cpu)
            } else if f.y == 3 {
                OPCode::op_10011110(cpu)
            } else if f.y == 4 {
                OPCode::op_10100110(cpu)
            } else if f.y == 5 {
                OPCode::op_10101110(cpu)
            } else if f.y == 6 {
                OPCode::op_10110110(cpu)
            } else {
                OPCode::op_10111110(cpu)
            }
        } else {
            if f.y == 0 {
                OPCode::op_10000xxx(cpu, f.z)
            } else if f.y == 1 {
                OPCode::op_10001xxx(cpu, f.z)
            } else if f.y == 2 {
                OPCode::op_10010xxx(cpu, f.z)
            } else if f.y == 3 {
                OPCode::op_10011xxx(cpu, f.z)
            } else if f.y == 4 {
                OPCode::op_10100xxx(cpu, f.z)
            } else if f.y == 5 {
                OPCode::op_10101xxx(cpu, f.z)
            } else if f.y == 6 {
                OPCode::op_10110xxx(cpu, f.z)
            } else {
                OPCode::op_10111xxx(cpu, f.z)
            }
        }
    }

    /// Runs the operation of the arithmetic and logic unit on A and the
    /// byte that follows the opcode: the fields `11 yyy 110`.
    fn exec_alu_immediate(cpu: &mut CPU, opcode: u8) -> (cycles: u8)
        requires
            old(cpu).wf(),
            opcode / 64 == 3,
            opcode % 8 == 6,
        ensures
            final(cpu).wf(),
            decode_base(opcode) is Some,
            ran(old(cpu)@, final(cpu)@, cycles, decode_base(opcode).unwrap()),
    {
        let f = Fields::of(opcode);
            if f.y == 0 {
                OPCode::op_11000110(cpu)
            } else if f.y == 1 {
                OPCode::op_11001110(cpu)
            } else if f.y == 2 {
                OPCode::op_11010110(cpu)
            } else if f.y == 3 {
                OPCode::op_11011110(cpu)
            } else if f.y == 4 {
                OPCode::op_11100110(cpu)
            } else if f.y == 5 {
                OPCode::op_11101110(cpu)
            } else if f.y == 6 {
                OPCode::op_11110110(cpu)
            } else {
                OPCode::op_11111110(cpu)
            }
    }

    /// Runs an operation with the fields `11 yyy zzz`.
    fn exec_last_quarter(cpu: &mut CPU, opcode: u8) -> (cycles: u8)
        requires
            old(cpu).wf(),
            opcode / 64 == 3,
            decode_base(opcode) is Some,
        ensures
            final(cpu).wf(),
            ran(old(cpu)@, final(cpu)@, cycles, decode_base(opcode).unwrap()),
    {
        let f = Fields::of(opcode);
        if f.z == 0 {
            if f.y < 4 {
                OPCode::op_110xx000(cpu, f.y)
            } else if f.y == 4 {
                OPCode::op_11100000(cpu)
            } else if f.y == 5 {
                OPCode::op_11101000(cpu)
            } else if f.y == 6 {
                OPCode::op_11110000(cpu)
            } else {
                OPCode::op_11111000(cpu)
            }
        } else if f.z == 1 {
            if f.q == 0 {
                OPCode::op_11xx0001(cpu, f.p)
            } else if f.p == 0 {
                OPCode::op_11001001(cpu)
            } else if f.p == 1 {
                OPCode::op_11011001(cpu)
            } else if f.p == 2 {
                OPCode::op_11101001(cpu)
            } else {
                OPCode::op_11111001(cpu)
            }
        } else if f.z == 2 {
            if f.y < 4 {
                OPCode::op_110xx010(cpu, f.y)
            } else if f.y == 4 {
                OPCode::op_11100010(cpu)
            } else if f.y == 5 {
                OPCode::op_11101010(cpu)
            } else if f.y == 6 {
                OPCode::op_11110010(cpu)
            } else {
                OPCode::op_11111010(cpu)
            }
        } else if f.z == 3 {
            if f.y == 0 {
                OPCode::op_11000011(cpu)
            } else if f.y == 1 {
                OPCode::op_11001011(cpu)
            } else if f.y == 6 {
                OPCode::op_11110011(cpu)
            } else {
                OPCode::op_11111011(cpu)
            }
        } else if f.z == 4 {
            OPCode::op_110xx100(cpu, f.y)
        } else if f.z == 5 {
            if f.q == 0 {
                OPCode::op_11xx0101(cpu, f.p)
            } else {
                OPCode::op_11001101(cpu)
            }
        } else if f.z == 6 {
            OPCode::exec_alu_immediate(cpu, opcode)
        } else {
            OPCode::op_11xxx111(cpu, f.y)
        }
    }

    /// Runs the operation that a byte names, on the base page or, with
    /// `is_cb`, on the CB page, and returns its machine cycles. The byte
    /// has been fetched already: the program counter stands behind it.
    pub fn exec(cpu: &mut CPU, opcode: u8, is_cb: bool) -> (cycles: u8)
        requires
            old(cpu).wf(),
            decode(opcode, is_cb) is Some,
        ensures
            final(cpu).wf(),
            ran(old(cpu)@, final(cpu)@, cycles, decode(opcode, is_cb).unwrap()),
    {
        if is_cb {
            return OPCode::exec_cb_page(cpu, opcode);
        }
        let f = Fields::of(opcode);
        if f.x == 0 {
            OPCode::exec_first_quarter(cpu, opcode)
        } else if f.x == 1 {
            OPCode::exec_second_quarter(cpu, opcode)
        } else if f.x == 2 {
            OPCode::exec_third_quarter(cpu, opcode)
        } else {
            OPCode::exec_last_quarter(cpu, opcode)
        }
    }

    /// Runs STOP, once both of its bytes have been fetched.
    pub fn exec_stop(cpu: &mut CPU) -> (cycles: u8)
        requires
            old(cpu).wf(),
        ensures
            final(cpu).wf(),
            ran(old(cpu)@, final(cpu)@, cycles, Instruction::Stop),
    {
        OPCode::op_00010000_00000000(cpu)
    }
}

} // verus!
