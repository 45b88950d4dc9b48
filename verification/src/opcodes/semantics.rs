//! What each operation does to the state of the processor, and how many
//! machine cycles it takes.
use vstd::prelude::*;
use crate::machine::cpu::CpuState;
use crate::machine::memory::{address_after, IE, IF};
use crate::opcodes::instruction::{
    decode_cb, AluOp, Condition, Instruction, Operand, Reg16, Reg8, ShiftOp, StackReg,
};

verus! {

/// The kinds of work that the arithmetic and logic unit does on two bytes.
#[derive(Debug, Clone, Copy, PartialEq, Eq, Structural)]
pub enum ALUOP {
    ADD,
    SUB,
    INC,
    DEC,
    AND,
    OR,
    XOR,
}

/// A byte read as a signed offset in two's complement.
#[verifier::opaque]
pub open spec fn signed(e: u8) -> int {
    if e < 128 {
        e as int
    } else {
        e as int - 256
    }
}

/// The carry flag as a number.
pub open spec fn carry_in(carry: bool) -> u8 {
    if carry {
        1
    } else {
        0
    }
}

/// The result of an operation of the arithmetic and logic unit on `a` and
/// `b` with the carry input `cin`. INC and DEC ignore `b` and `cin`.
#[verifier::opaque]
pub open spec fn alu_value(op: ALUOP, a: u8, b: u8, cin: u8) -> u8 {
    match op {
        ALUOP::ADD => ((a + b + cin) % 256) as u8,
        ALUOP::SUB => ((a - b - cin) % 256) as u8,
        ALUOP::INC => ((a + 1) % 256) as u8,
        ALUOP::DEC => ((a - 1) % 256) as u8,
        ALUOP::AND => a & b,
        ALUOP::OR => a | b,
        ALUOP::XOR => a ^ b,
    }
}

/// The half-carry flag after an operation: the carry out of bit 3 for
/// additions, the borrow into bit 4 for subtractions, set by AND, clear
/// after OR and XOR.
#[verifier::opaque]
pub open spec fn alu_half(op: ALUOP, a: u8, b: u8, cin: u8) -> bool {
    match op {
        ALUOP::ADD => a % 16 + b % 16 + cin > 0xF,
        ALUOP::SUB => a % 16 < b % 16 + cin,
        ALUOP::INC => a % 16 + 1 > 0xF,
        ALUOP::DEC => a % 16 == 0,
        ALUOP::AND => true,
        ALUOP::OR => false,
        ALUOP::XOR => false,
    }
}

/// The carry flag after an operation that sets it: the carry out of bit 7
/// for ADD, the borrow for SUB, clear after the logic operations.
#[verifier::opaque]
pub open spec fn alu_carry(op: ALUOP, a: u8, b: u8, cin: u8) -> bool {
    match op {
        ALUOP::ADD => a + b + cin > 0xFF,
        ALUOP::SUB => a - b - cin < 0,
        _ => false,
    }
}

/// The result of a rotate or shift of `a`; RL and RR shift the carry flag in.
pub open spec fn shift_value(op: ShiftOp, a: u8, carry: bool) -> u8 {
    match op {
        ShiftOp::Rlc => (a << 1) | (a >> 7),
        ShiftOp::Rrc => (a >> 1) | (a << 7),
        ShiftOp::Rl => (a << 1) | carry_in(carry),
        ShiftOp::Rr => (a >> 1) | (carry_in(carry) << 7),
        ShiftOp::Sla => a << 1,
        ShiftOp::Sra => (a >> 1) | (a & 0x80),
        ShiftOp::Swap => ((a & 0x0F) << 4) | ((a & 0xF0) >> 4),
        ShiftOp::Srl => a >> 1,
    }
}

/// The carry flag after a rotate or shift: the bit that left the byte,
/// bit 7 to the left and bit 0 to the right; SWAP clears it.
pub open spec fn shift_carry(op: ShiftOp, a: u8) -> bool {
    match op {
        ShiftOp::Rlc => a & 0x80 != 0,
        ShiftOp::Rl => a & 0x80 != 0,
        ShiftOp::Sla => a & 0x80 != 0,
        ShiftOp::Swap => false,
        _ => a & 0x01 != 0,
    }
}

/// What the decimal adjust adds to A after an addition, or subtracts from
/// it after a subtraction.
#[verifier::opaque]
pub open spec fn daa_adjustment(a: u8, n: bool, h: bool, c: bool) -> u8 {
    if n {
        ((if h { 0x06int } else { 0 }) + (if c { 0x60int } else { 0 })) as u8
    } else {
        ((if h || a % 16 > 9 { 0x06int } else { 0 }) + (if c || a > 0x99 { 0x60int } else { 0 })) as u8
    }
}

/// A after the decimal adjust.
#[verifier::opaque]
pub open spec fn daa_value(a: u8, n: bool, h: bool, c: bool) -> u8 {
    if n {
        ((a - daa_adjustment(a, n, h, c)) % 256) as u8
    } else {
        ((a + daa_adjustment(a, n, h, c)) % 256) as u8
    }
}

/// The carry flag after the decimal adjust: kept after a subtraction, and
/// set after an addition that had it set or left A above 0x99.
#[verifier::opaque]
pub open spec fn daa_carry(a: u8, n: bool, c: bool) -> bool {
    if n {
        c
    } else {
        c || a > 0x99
    }
}

/// The half-carry of a 16-bit addition: the carry out of bit 11.
#[verifier::opaque]
pub open spec fn add16_half(a: u16, b: u16) -> bool {
    a % 0x1000 + b % 0x1000 > 0x0FFF
}

/// The carry of a 16-bit addition.
#[verifier::opaque]
pub open spec fn add16_carry(a: u16, b: u16) -> bool {
    a + b > 0xFFFF
}

/// The half-carry of SP plus an offset: the carry out of bit 3 of the
/// unsigned sum of the low bytes.
#[verifier::opaque]
pub open spec fn offset_half(sp: u16, e: u8) -> bool {
    sp % 16 + e % 16 > 0x0F
}

/// The carry of SP plus an offset: the carry out of bit 7 of the unsigned
/// sum of the low bytes.
#[verifier::opaque]
pub open spec fn offset_carry(sp: u16, e: u8) -> bool {
    sp % 256 + e > 0xFF
}

/// The extra machine cycles that an operand costs.
pub open spec fn operand_cost(operand: Operand) -> u8 {
    match operand {
        Operand::Reg(_) => 0,
        Operand::AtNN => 3,
        Operand::AtHighN => 2,
        Operand::AtHighC => 2,
        _ => 1,
    }
}

impl CpuState {
    pub open spec fn reg(self, r: Reg8) -> u8 {
        match r {
            Reg8::B => self.b,
            Reg8::C => self.c,
            Reg8::D => self.d,
            Reg8::E => self.e,
            Reg8::H => self.h,
            Reg8::L => self.l,
            Reg8::A => self.a,
        }
    }

    pub open spec fn with_reg(self, r: Reg8, value: u8) -> CpuState {
        match r {
            Reg8::B => CpuState { b: value, ..self },
            Reg8::C => CpuState { c: value, ..self },
            Reg8::D => CpuState { d: value, ..self },
            Reg8::E => CpuState { e: value, ..self },
            Reg8::H => CpuState { h: value, ..self },
            Reg8::L => CpuState { l: value, ..self },
            Reg8::A => CpuState { a: value, ..self },
        }
    }

    pub open spec fn reg16(self, r: Reg16) -> u16 {
        match r {
            Reg16::BC => self.bc(),
            Reg16::DE => self.de(),
            Reg16::HL => self.hl(),
            Reg16::SP => self.sp,
        }
    }

    pub open spec fn with_reg16(self, r: Reg16, value: u16) -> CpuState {
        match r {
            Reg16::BC => self.with_bc(value),
            Reg16::DE => self.with_de(value),
            Reg16::HL => self.with_hl(value),
            Reg16::SP => CpuState { sp: value, ..self },
        }
    }

    pub open spec fn stack_reg(self, r: StackReg) -> u16 {
        match r {
            StackReg::BC => self.bc(),
            StackReg::DE => self.de(),
            StackReg::HL => self.hl(),
            StackReg::AF => self.af(),
        }
    }

    pub open spec fn with_stack_reg(self, r: StackReg, value: u16) -> CpuState {
        match r {
            StackReg::BC => self.with_bc(value),
            StackReg::DE => self.with_de(value),
            StackReg::HL => self.with_hl(value),
            StackReg::AF => self.with_af(value),
        }
    }

    /// Whether a condition holds of the flags.
    pub open spec fn holds(self, condition: Condition) -> bool {
        match condition {
            Condition::NZ => !self.flag_z(),
            Condition::Z => self.flag_z(),
            Condition::NC => !self.flag_c(),
            Condition::C => self.flag_c(),
        }
    }

    /// The four flags set at once.
    pub open spec fn with_flags(self, z: bool, n: bool, h: bool, c: bool) -> CpuState {
        self.with_z(z).with_n(n).with_h(h).with_c(c)
    }

    /// The flags after an operation of the arithmetic and logic unit. INC
    /// and DEC leave the carry flag as it was.
    pub open spec fn with_alu_flags(self, op: ALUOP, a: u8, b: u8, cin: u8) -> CpuState {
        let z = alu_value(op, a, b, cin) == 0;
        let h = alu_half(op, a, b, cin);
        match op {
            ALUOP::ADD => self.with_flags(z, false, h, alu_carry(op, a, b, cin)),
            ALUOP::SUB => self.with_flags(z, true, h, alu_carry(op, a, b, cin)),
            ALUOP::INC => self.with_z(z).with_n(false).with_h(h),
            ALUOP::DEC => self.with_z(z).with_n(true).with_h(h),
            _ => self.with_flags(z, false, h, false),
        }
    }

    /// The byte at the program counter.
    pub open spec fn imm8(self) -> u8 {
        self.bus.read(self.pc)
    }

    /// The little-endian word at the program counter.
    pub open spec fn imm16(self) -> u16 {
        self.bus.read_word(self.pc)
    }

    /// The program counter moved `by` bytes on.
    pub open spec fn skip(self, by: int) -> CpuState {
        CpuState { pc: address_after(self.pc, by), ..self }
    }

    pub open spec fn jump(self, target: u16) -> CpuState {
        CpuState { pc: target, ..self }
    }

    /// A word pushed: SP goes down by two, and the word is stored there.
    pub open spec fn pushed(self, value: u16) -> CpuState {
        let sp = address_after(self.sp, -2);
        CpuState { sp, bus: self.bus.write_word(sp, value), ..self }
    }

    /// The word on top of the stack.
    pub open spec fn top(self) -> u16 {
        self.bus.read_word(self.sp)
    }

    /// The top of the stack dropped: SP goes up by two.
    pub open spec fn popped(self) -> CpuState {
        CpuState { sp: address_after(self.sp, 2), ..self }
    }

    /// Whether an enabled interrupt is requested.
    pub open spec fn interrupt_pending(self) -> bool {
        self.bus.read(IE) & self.bus.read(IF) != 0
    }

    /// The address of an operand in memory.
    pub open spec fn operand_address(self, operand: Operand) -> u16 {
        match operand {
            Operand::AtHL => self.hl(),
            Operand::AtHLInc => self.hl(),
            Operand::AtHLDec => self.hl(),
            Operand::AtBC => self.bc(),
            Operand::AtDE => self.de(),
            Operand::AtNN => self.imm16(),
            Operand::AtHighN => (0xFF00 + self.imm8()) as u16,
            Operand::AtHighC => (0xFF00 + self.c) as u16,
            _ => 0,
        }
    }

    /// The value of an operand.
    pub open spec fn load(self, operand: Operand) -> u8 {
        match operand {
            Operand::Reg(r) => self.reg(r),
            Operand::Immediate => self.imm8(),
            _ => self.bus.read(self.operand_address(operand)),
        }
    }

    /// The state once a value is stored in an operand.
    pub open spec fn store(self, operand: Operand, value: u8) -> CpuState {
        match operand {
            Operand::Reg(r) => self.with_reg(r, value),
            Operand::Immediate => self,
            _ => CpuState { bus: self.bus.write(self.operand_address(operand), value), ..self },
        }
    }

    /// What naming an operand does besides the access: the program counter
    /// passes the bytes that follow the opcode, and HL is stepped.
    pub open spec fn settle(self, operand: Operand) -> CpuState {
        match operand {
            Operand::Immediate => self.skip(1),
            Operand::AtHighN => self.skip(1),
            Operand::AtNN => self.skip(2),
            Operand::AtHLInc => self.with_hl(address_after(self.hl(), 1)),
            Operand::AtHLDec => self.with_hl(address_after(self.hl(), -1)),
            _ => self,
        }
    }

    /// An operation of the arithmetic and logic unit on A and `b`. ADC and
    /// SBC take the carry flag in; CP sets the flags of SUB and keeps A.
    pub open spec fn alu(self, op: AluOp, b: u8) -> CpuState {
        let a = self.a;
        let cin = carry_in(self.flag_c());
        match op {
            AluOp::Add => CpuState { a: alu_value(ALUOP::ADD, a, b, 0), ..self.with_alu_flags(ALUOP::ADD, a, b, 0) },
            AluOp::Adc => CpuState {
                a: alu_value(ALUOP::ADD, a, b, cin),
                ..self.with_alu_flags(ALUOP::ADD, a, b, cin)
            },
            AluOp::Sub => CpuState { a: alu_value(ALUOP::SUB, a, b, 0), ..self.with_alu_flags(ALUOP::SUB, a, b, 0) },
            AluOp::Sbc => CpuState {
                a: alu_value(ALUOP::SUB, a, b, cin),
                ..self.with_alu_flags(ALUOP::SUB, a, b, cin)
            },
            AluOp::And => CpuState { a: alu_value(ALUOP::AND, a, b, 0), ..self.with_alu_flags(ALUOP::AND, a, b, 0) },
            AluOp::Xor => CpuState { a: alu_value(ALUOP::XOR, a, b, 0), ..self.with_alu_flags(ALUOP::XOR, a, b, 0) },
            AluOp::Or => CpuState { a: alu_value(ALUOP::OR, a, b, 0), ..self.with_alu_flags(ALUOP::OR, a, b, 0) },
            AluOp::Cp => self.with_alu_flags(ALUOP::SUB, a, b, 0),
        }
    }

    /// A rotate of A on the base page: as on the CB page, but Z is cleared.
    pub open spec fn rotate_a(self, op: ShiftOp) -> CpuState {
        CpuState { a: shift_value(op, self.a, self.flag_c()), ..self }.with_flags(
            false,
            false,
            false,
            shift_carry(op, self.a),
        )
    }

    /// The decimal adjust of A.
    pub open spec fn daa(self) -> CpuState {
        let value = daa_value(self.a, self.flag_n(), self.flag_h(), self.flag_c());
        CpuState { a: value, ..self }.with_z(value == 0).with_h(false).with_c(
            daa_carry(self.a, self.flag_n(), self.flag_c()),
        )
    }

    /// SP plus the signed byte at the program counter, with the flags that
    /// ADD SP,e and LD HL,SP+e share.
    pub open spec fn sp_plus_offset(self) -> u16 {
        address_after(self.sp, signed(self.imm8()))
    }

    pub open spec fn with_offset_flags(self) -> CpuState {
        self.with_flags(false, false, offset_half(self.sp, self.imm8()), offset_carry(self.sp, self.imm8()))
    }

    /// A call: the address of the next instruction is pushed, and the
    /// program counter goes to the target.
    pub open spec fn call(self, next: u16, target: u16) -> CpuState {
        self.pushed(next).jump(target)
    }

    /// A return: the program counter is popped.
    pub open spec fn ret(self) -> CpuState {
        self.popped().jump(self.top())
    }

    /// The state after an operation other than the prefix.
    pub open spec fn execute_plain(self, instruction: Instruction) -> CpuState {
        match instruction {
            Instruction::Nop => self,
            Instruction::Stop => self,
            Instruction::Prefix => self,
            Instruction::Halt => CpuState {
                is_halted: self.is_halted || self.ime || !self.interrupt_pending(),
                ..self
            },
            Instruction::Di => CpuState { ime: false, ..self },
            Instruction::Ei => CpuState { ime: true, ..self },
            Instruction::Ld(destination, source) => self.store(destination, self.load(source)).settle(
                source,
            ).settle(destination),
            Instruction::LdImm16(pair) => self.skip(2).with_reg16(pair, self.imm16()),
            Instruction::LdNNSp => CpuState {
                bus: self.bus.write_word(self.imm16(), self.sp),
                ..self
            }.skip(2),
            Instruction::LdSpHl => CpuState { sp: self.hl(), ..self },
            Instruction::LdHlSpE => self.with_offset_flags().with_hl(self.sp_plus_offset()).skip(1),
            Instruction::Push(pair) => self.pushed(self.stack_reg(pair)),
            Instruction::Pop(pair) => self.popped().with_stack_reg(pair, self.top()),
            Instruction::Alu(op, source) => self.alu(op, self.load(source)).settle(source),
            Instruction::Inc(target) => self.with_alu_flags(ALUOP::INC, self.load(target), 1, 0).store(
                target,
                alu_value(ALUOP::INC, self.load(target), 1, 0),
            ),
            Instruction::Dec(target) => self.with_alu_flags(ALUOP::DEC, self.load(target), 1, 0).store(
                target,
                alu_value(ALUOP::DEC, self.load(target), 1, 0),
            ),
            Instruction::Daa => self.daa(),
            Instruction::Cpl => CpuState { a: !self.a, ..self }.with_n(true).with_h(true),
            Instruction::Ccf => self.with_n(false).with_h(false).with_c(!self.flag_c()),
            Instruction::Scf => self.with_n(false).with_h(false).with_c(true),
            Instruction::AddHl(pair) => self.with_hl(address_after(self.hl(), self.reg16(pair) as int)).with_n(
                false,
            ).with_h(add16_half(self.hl(), self.reg16(pair))).with_c(
                add16_carry(self.hl(), self.reg16(pair)),
            ),
            Instruction::Inc16(pair) => self.with_reg16(pair, address_after(self.reg16(pair), 1)),
            Instruction::Dec16(pair) => self.with_reg16(pair, address_after(self.reg16(pair), -1)),
            Instruction::AddSpE => CpuState {
                sp: self.sp_plus_offset(),
                ..self.with_offset_flags()
            }.skip(1),
            Instruction::Rlca => self.rotate_a(ShiftOp::Rlc),
            Instruction::Rrca => self.rotate_a(ShiftOp::Rrc),
            Instruction::Rla => self.rotate_a(ShiftOp::Rl),
            Instruction::Rra => self.rotate_a(ShiftOp::Rr),
            Instruction::Jp => self.jump(self.imm16()),
            Instruction::JpHl => self.jump(self.hl()),
            Instruction::JpCc(condition) => if self.holds(condition) {
                self.jump(self.imm16())
            } else {
                self.skip(2)
            },
            Instruction::Jr => self.jump(address_after(address_after(self.pc, 1), signed(self.imm8()))),
            Instruction::JrCc(condition) => if self.holds(condition) {
                self.jump(address_after(address_after(self.pc, 1), signed(self.imm8())))
            } else {
                self.skip(1)
            },
            Instruction::Call => self.call(address_after(self.pc, 2), self.imm16()),
            Instruction::CallCc(condition) => if self.holds(condition) {
                self.call(address_after(self.pc, 2), self.imm16())
            } else {
                self.skip(2)
            },
            Instruction::Ret => self.ret(),
            Instruction::RetCc(condition) => if self.holds(condition) {
                self.ret()
            } else {
                self
            },
            Instruction::Reti => CpuState { ime: true, ..self.ret() },
            Instruction::Rst(t) => self.call(self.pc, (8 * t) as u16),
            Instruction::Shift(op, target) => self.store(
                target,
                shift_value(op, self.load(target), self.flag_c()),
            ).with_flags(
                shift_value(op, self.load(target), self.flag_c()) == 0,
                false,
                false,
                shift_carry(op, self.load(target)),
            ),
            Instruction::Bit(bit, source) => self.with_z((self.load(source) >> bit) & 1 == 0).with_n(
                false,
            ).with_h(true),
            Instruction::Res(bit, target) => self.store(target, self.load(target) & !(1u8 << bit)),
            Instruction::SetBit(bit, target) => self.store(target, self.load(target) | (1u8 << bit)),
        }
    }

    /// The state after an operation, once its opcode byte has been fetched.
    /// The prefix fetches one more byte and runs the operation that this
    /// byte names on the CB page.
    pub open spec fn execute(self, instruction: Instruction) -> CpuState {
        match instruction {
            Instruction::Prefix => self.skip(1).execute_plain(decode_cb(self.imm8())),
            _ => self.execute_plain(instruction),
        }
    }

    /// The machine cycles of an operation other than the prefix.
    pub open spec fn cycles_plain(self, instruction: Instruction) -> u8 {
        match instruction {
            Instruction::Nop => 1,
            Instruction::Stop => 0,
            Instruction::Prefix => 1,
            Instruction::Halt => 0,
            Instruction::Di => 1,
            Instruction::Ei => 1,
            Instruction::Ld(destination, source) => (1 + operand_cost(destination) + operand_cost(
                source,
            )) as u8,
            Instruction::LdImm16(_) => 3,
            Instruction::LdNNSp => 6,
            Instruction::LdSpHl => 2,
            Instruction::LdHlSpE => 3,
            Instruction::Push(_) => 4,
            Instruction::Pop(_) => 3,
            Instruction::Alu(_, source) => (1 + operand_cost(source)) as u8,
            Instruction::Inc(target) => (1 + 2 * operand_cost(target)) as u8,
            Instruction::Dec(target) => (1 + 2 * operand_cost(target)) as u8,
            Instruction::Daa => 1,
            Instruction::Cpl => 1,
            Instruction::Ccf => 1,
            Instruction::Scf => 1,
            Instruction::AddHl(_) => 2,
            Instruction::Inc16(_) => 2,
            Instruction::Dec16(_) => 2,
            Instruction::AddSpE => 4,
            Instruction::Rlca => 1,
            Instruction::Rrca => 1,
            Instruction::Rla => 1,
            Instruction::Rra => 1,
            Instruction::Jp => 4,
            Instruction::JpHl => 2,
            Instruction::JpCc(condition) => if self.holds(condition) {
                4
            } else {
                3
            },
            Instruction::Jr => 3,
            Instruction::JrCc(condition) => if self.holds(condition) {
                3
            } else {
                2
            },
            Instruction::Call => 5,
            Instruction::CallCc(condition) => if self.holds(condition) {
                5
            } else {
                4
            },
            Instruction::Ret => 4,
            Instruction::RetCc(condition) => if self.holds(condition) {
                5
            } else {
                2
            },
            Instruction::Reti => 4,
            Instruction::Rst(_) => 4,
            Instruction::Shift(_, target) => (2 + 2 * operand_cost(target)) as u8,
            Instruction::Bit(_, source) => (2 + operand_cost(source)) as u8,
            Instruction::Res(_, target) => (2 + 2 * operand_cost(target)) as u8,
            Instruction::SetBit(_, target) => (2 + 2 * operand_cost(target)) as u8,
        }
    }

    /// The machine cycles that an operation takes in this state. A taken
    /// branch costs more than one that is not taken; an operation of the CB
    /// page costs what it costs with its prefix.
    pub open spec fn cycles(self, instruction: Instruction) -> u8 {
        match instruction {
            Instruction::Prefix => self.skip(1).cycles_plain(decode_cb(self.imm8())),
            _ => self.cycles_plain(instruction),
        }
    }
}

/// Whether `after` and `cycles` are what `instruction` makes of `before`.
pub open spec fn ran(before: CpuState, after: CpuState, cycles: u8, instruction: Instruction) -> bool {
    after == before.execute(instruction) && cycles == before.cycles(instruction)
}

} // verus!
