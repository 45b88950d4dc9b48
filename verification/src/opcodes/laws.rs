//! What holds of the operations whatever the state: the decimal adjust,
//! the stack, the flags and the invariant of the bus.
use vstd::prelude::*;
use crate::machine::cpu::{
    law_flags_are_independent, lemma_flag_bits, with_flag, CpuState, C_FLAG, H_FLAG, N_FLAG, Z_FLAG,
};
use crate::machine::memory::{
    address_after, high_byte, law_word_write_then_read, lemma_write_keeps_wf, low_byte, word_of,
};
use crate::opcodes::instruction::{decode_cb, AluOp, Instruction, Operand, Reg8, StackReg};
use crate::opcodes::semantics::{
    alu_carry, alu_half, alu_value, carry_in, daa_adjustment, daa_carry, daa_value, shift_value, ALUOP,
};

verus! {

/// The packed decimal byte of a number below 100: the tens in the high
/// nibble, the units in the low nibble.
pub open spec fn bcd(x: int) -> u8 {
    (16 * (x / 10) + x % 10) as u8
}

/// The arithmetic of an addition of packed decimals followed by the
/// decimal adjust, on bytes.
proof fn lemma_daa_add_bytes(
    x: u8,
    y: u8,
    a: u8,
    b: u8,
    s: u8,
    h: bool,
    c: bool,
    low: u8,
    high: u8,
    r: u8,
    m: u8,
)
    by (bit_vector)
    requires
        x < 100,
        y < 100,
        a == 16 * (x / 10) + x % 10,
        b == 16 * (y / 10) + y % 10,
        a + b <= 255 ==> s == a + b,
        a + b > 255 ==> s == a + b - 256,
        h <==> a % 16 + b % 16 > 15,
        c <==> a + b > 255,
        (h || s % 16 > 9) ==> low == 6,
        !(h || s % 16 > 9) ==> low == 0,
        (c || s > 0x99) ==> high == 0x60,
        !(c || s > 0x99) ==> high == 0,
        s + (low + high) <= 255 ==> r == s + (low + high),
        s + (low + high) > 255 ==> r == s + (low + high) - 256,
        x + y < 100 ==> m == x + y,
        x + y >= 100 ==> m == x + y - 100,
    ensures
        r == 16 * (m / 10) + m % 10,
        (c || s > 0x99) <==> x + y >= 100,
{
}

/// The arithmetic of a subtraction of packed decimals followed by the
/// decimal adjust, on bytes.
proof fn lemma_daa_sub_bytes(
    x: u8,
    y: u8,
    a: u8,
    b: u8,
    s: u8,
    h: bool,
    c: bool,
    low: u8,
    high: u8,
    r: u8,
    m: u8,
)
    by (bit_vector)
    requires
        x < 100,
        y < 100,
        a == 16 * (x / 10) + x % 10,
        b == 16 * (y / 10) + y % 10,
        a >= b ==> s == a - b,
        a < b ==> s == a + 256 - b,
        h <==> a % 16 < b % 16,
        c <==> a < b,
        h ==> low == 6,
        !h ==> low == 0,
        c ==> high == 0x60,
        !c ==> high == 0,
        s >= low + high ==> r == s - (low + high),
        s < low + high ==> r == s + 256 - (low + high),
        x >= y ==> m == x - y,
        x < y ==> m == x + 100 - y,
    ensures
        r == 16 * (m / 10) + m % 10,
{
}

/// What ADD and SUB without a carry input compute, in plain arithmetic.
proof fn lemma_alu_plain(a: u8, b: u8)
    ensures
        a + b <= 255 ==> alu_value(ALUOP::ADD, a, b, 0) == a + b,
        a + b > 255 ==> alu_value(ALUOP::ADD, a, b, 0) == a + b - 256,
        alu_half(ALUOP::ADD, a, b, 0) <==> a % 16 + b % 16 > 15,
        alu_carry(ALUOP::ADD, a, b, 0) <==> a + b > 255,
        a >= b ==> alu_value(ALUOP::SUB, a, b, 0) == a - b,
        a < b ==> alu_value(ALUOP::SUB, a, b, 0) == a + 256 - b,
        alu_half(ALUOP::SUB, a, b, 0) <==> a % 16 < b % 16,
        alu_carry(ALUOP::SUB, a, b, 0) <==> a < b,
{
    reveal(alu_value);
    reveal(alu_half);
    reveal(alu_carry);
}

/// What the decimal adjust computes, in plain arithmetic.
proof fn lemma_daa_plain(s: u8, n: bool, h: bool, c: bool, low: u8, high: u8)
    requires
        low == (if n { if h { 6u8 } else { 0u8 } } else { if h || s % 16 > 9 { 6u8 } else { 0u8 } }),
        high == (if n { if c { 0x60u8 } else { 0u8 } } else { if c || s > 0x99 { 0x60u8 } else { 0u8 } }),
    ensures
        !n && s + (low + high) <= 255 ==> daa_value(s, n, h, c) == s + (low + high),
        !n && s + (low + high) > 255 ==> daa_value(s, n, h, c) == s + (low + high) - 256,
        n && s >= low + high ==> daa_value(s, n, h, c) == s - (low + high),
        n && s < low + high ==> daa_value(s, n, h, c) == s + 256 - (low + high),
        daa_carry(s, n, c) <==> c || (!n && s > 0x99),
{
    reveal(daa_adjustment);
    reveal(daa_value);
    reveal(daa_carry);
}

/// Two packed decimals that are added and then decimally adjusted give the
/// packed decimal of their sum modulo 100, and the carry says whether the
/// sum reached 100.
pub proof fn law_daa_after_add(x: u8, y: u8)
    requires
        x < 100,
        y < 100,
    ensures
        ({
            let a = bcd(x as int);
            let b = bcd(y as int);
            let sum = alu_value(ALUOP::ADD, a, b, 0);
            let h = alu_half(ALUOP::ADD, a, b, 0);
            let c = alu_carry(ALUOP::ADD, a, b, 0);
            &&& daa_value(sum, false, h, c) == bcd((x + y) % 100)
            &&& daa_carry(sum, false, c) == (x + y >= 100)
        }),
{
    let a = bcd(x as int);
    let b = bcd(y as int);
    let sum = alu_value(ALUOP::ADD, a, b, 0);
    let h = alu_half(ALUOP::ADD, a, b, 0);
    let c = alu_carry(ALUOP::ADD, a, b, 0);
    let r = daa_value(sum, false, h, c);
    let low: u8 = if h || sum % 16 > 9 { 6 } else { 0 };
    let high: u8 = if c || sum > 0x99 { 0x60 } else { 0 };
    let m = ((x + y) % 100) as u8;
    lemma_alu_plain(a, b);
    lemma_daa_plain(sum, false, h, c, low, high);
    lemma_daa_add_bytes(x, y, a, b, sum, h, c, low, high, r, m);
}

/// Two packed decimals that are subtracted and then decimally adjusted
/// give the packed decimal of their difference modulo 100, and the carry
/// says whether the subtraction borrowed.
pub proof fn law_daa_after_sub(x: u8, y: u8)
    requires
        x < 100,
        y < 100,
    ensures
        ({
            let a = bcd(x as int);
            let b = bcd(y as int);
            let difference = alu_value(ALUOP::SUB, a, b, 0);
            let h = alu_half(ALUOP::SUB, a, b, 0);
            let c = alu_carry(ALUOP::SUB, a, b, 0);
            &&& daa_value(difference, true, h, c) == bcd((x - y) % 100)
            &&& daa_carry(difference, true, c) == (x < y)
        }),
{
    let a = bcd(x as int);
    let b = bcd(y as int);
    let difference = alu_value(ALUOP::SUB, a, b, 0);
    let h = alu_half(ALUOP::SUB, a, b, 0);
    let c = alu_carry(ALUOP::SUB, a, b, 0);
    let r = daa_value(difference, true, h, c);
    let m = ((x - y) % 100) as u8;
    let low: u8 = if h { 6 } else { 0 };
    let high: u8 = if c { 0x60 } else { 0 };
    lemma_alu_plain(a, b);
    lemma_daa_plain(difference, true, h, c, low, high);
    lemma_daa_sub_bytes(x, y, a, b, difference, h, c, low, high, r, m);
    assert(a < b <==> x < y) by {
        lemma_bcd_order(x, y);
    }
}

/// The packed decimals of two numbers below 100 are ordered as the numbers.
proof fn lemma_bcd_order(x: u8, y: u8)
    by (bit_vector)
    requires
        x < 100,
        y < 100,
    ensures
        16 * (x / 10) + x % 10 < 16 * (y / 10) + y % 10 <==> x < y,
{
}

/// The four flags that are set at once are the four flags read back.
pub proof fn law_flags_read_back(state: CpuState, z: bool, n: bool, h: bool, c: bool)
    ensures
        state.with_flags(z, n, h, c).flag_z() == z,
        state.with_flags(z, n, h, c).flag_n() == n,
        state.with_flags(z, n, h, c).flag_h() == h,
        state.with_flags(z, n, h, c).flag_c() == c,
{
    let f0 = state.f;
    let f1 = with_flag(f0, Z_FLAG, z);
    let f2 = with_flag(f1, N_FLAG, n);
    let f3 = with_flag(f2, H_FLAG, h);
    law_flags_are_independent(f0, z);
    law_flags_are_independent(f1, n);
    law_flags_are_independent(f2, h);
    law_flags_are_independent(f3, c);
}

/// A processor that holds two packed decimals in A and B and runs ADD A,B
/// and DAA holds the packed decimal of their sum modulo 100 in A, and its
/// carry flag says whether the sum reached 100. With SUB B in place of
/// ADD A,B it holds their difference modulo 100, and the carry flag says
/// whether the subtraction borrowed.
pub proof fn law_decimal_arithmetic(state: CpuState, x: u8, y: u8)
    requires
        x < 100,
        y < 100,
        state.a == bcd(x as int),
        state.b == bcd(y as int),
    ensures
        ({
            let added = state.execute(
                Instruction::Alu(AluOp::Add, Operand::Reg(Reg8::B)),
            ).execute(Instruction::Daa);
            let subtracted = state.execute(
                Instruction::Alu(AluOp::Sub, Operand::Reg(Reg8::B)),
            ).execute(Instruction::Daa);
            &&& added.a == bcd((x + y) % 100)
            &&& added.flag_c() == (x + y >= 100)
            &&& subtracted.a == bcd((x - y) % 100)
            &&& subtracted.flag_c() == (x < y)
        }),
{
    let a = state.a;
    let b = state.b;
    law_daa_after_add(x, y);
    law_daa_after_sub(x, y);
    let sum = alu_value(ALUOP::ADD, a, b, 0);
    let after_add = state.execute(Instruction::Alu(AluOp::Add, Operand::Reg(Reg8::B)));
    law_flags_read_back(
        state,
        sum == 0,
        false,
        alu_half(ALUOP::ADD, a, b, 0),
        alu_carry(ALUOP::ADD, a, b, 0),
    );
    assert(after_add.a == sum);
    assert(after_add.f == state.with_flags(
        sum == 0,
        false,
        alu_half(ALUOP::ADD, a, b, 0),
        alu_carry(ALUOP::ADD, a, b, 0),
    ).f);
    lemma_daa_sets_carry(after_add);
    let difference = alu_value(ALUOP::SUB, a, b, 0);
    let after_sub = state.execute(Instruction::Alu(AluOp::Sub, Operand::Reg(Reg8::B)));
    law_flags_read_back(
        state,
        difference == 0,
        true,
        alu_half(ALUOP::SUB, a, b, 0),
        alu_carry(ALUOP::SUB, a, b, 0),
    );
    assert(after_sub.a == difference);
    assert(after_sub.f == state.with_flags(
        difference == 0,
        true,
        alu_half(ALUOP::SUB, a, b, 0),
        alu_carry(ALUOP::SUB, a, b, 0),
    ).f);
    lemma_daa_sets_carry(after_sub);
}

/// The decimal adjust leaves in the carry flag what its rule computes.
proof fn lemma_daa_sets_carry(state: CpuState)
    ensures
        state.execute(Instruction::Daa).a == daa_value(
            state.a,
            state.flag_n(),
            state.flag_h(),
            state.flag_c(),
        ),
        state.execute(Instruction::Daa).flag_c() == daa_carry(
            state.a,
            state.flag_n(),
            state.flag_c(),
        ),
{
    let value = daa_value(state.a, state.flag_n(), state.flag_h(), state.flag_c());
    let f1 = with_flag(state.f, Z_FLAG, value == 0);
    let f2 = with_flag(f1, H_FLAG, false);
    law_flags_are_independent(f2, daa_carry(state.a, state.flag_n(), state.flag_c()));
}

/// A pair that is pushed and popped again is the pair it was, and the
/// stack pointer is back where it was, wherever the bus stores the two
/// bytes below the stack pointer. For AF the low nibble of F comes back as
/// zero and the four flags as they were.
pub proof fn law_push_pop_round_trip(state: CpuState, pair: StackReg)
    requires
        state.wf(),
        state.bus.stores(address_after(state.sp, -2)),
        state.bus.stores(address_after(state.sp, -1)),
    ensures
        ({
            let after = state.execute(Instruction::Push(pair)).execute(Instruction::Pop(pair));
            &&& after.sp == state.sp
            &&& after.pc == state.pc
            &&& after.a == state.a
            &&& after.b == state.b
            &&& after.c == state.c
            &&& after.d == state.d
            &&& after.e == state.e
            &&& after.h == state.h
            &&& after.l == state.l
            &&& pair != StackReg::AF ==> after.f == state.f
            &&& pair == StackReg::AF ==> after.f == state.f & 0xF0 && after.f & 0x0F == 0
            &&& pair == StackReg::AF && state.flags_clean() ==> after.f == state.f
        }),
{
    let value = state.stack_reg(pair);
    lemma_pushed_then_popped(state, value);
    let pushed = state.pushed(value);
    assert(state.execute(Instruction::Push(pair)) == pushed);
    let after = pushed.popped().with_stack_reg(pair, value);
    assert(pushed.execute(Instruction::Pop(pair)) == after);
    lemma_pair_halves(state, pair);
    let f = state.f;
    assert((f & 0xF0) & 0x0F == 0 && (f & 0x0F == 0 ==> f & 0xF0 == f)) by (bit_vector);
}

/// A word that is pushed is on top of the stack, and dropping it puts the
/// stack pointer back.
pub proof fn lemma_pushed_then_popped(state: CpuState, value: u16)
    requires
        state.wf(),
        state.bus.stores(address_after(state.sp, -2)),
        state.bus.stores(address_after(state.sp, -1)),
    ensures
        state.pushed(value).top() == value,
        state.pushed(value).popped().sp == state.sp,
{
    let sp = address_after(state.sp, -2);
    assert(address_after(sp, 1) == address_after(state.sp, -1) && address_after(sp, 2) == state.sp)
        by {
        reveal(address_after);
    }
    law_word_write_then_read(state.bus, sp, value);
}

/// The halves of a pair are the registers that it is made of.
proof fn lemma_pair_halves(state: CpuState, pair: StackReg)
    ensures
        high_byte(state.stack_reg(pair)) == (match pair {
            StackReg::BC => state.b,
            StackReg::DE => state.d,
            StackReg::HL => state.h,
            StackReg::AF => state.a,
        }),
        low_byte(state.stack_reg(pair)) == (match pair {
            StackReg::BC => state.c,
            StackReg::DE => state.e,
            StackReg::HL => state.l,
            StackReg::AF => state.f,
        }),
{
    reveal(word_of);
    reveal(high_byte);
    reveal(low_byte);
}

/// Setting or clearing a flag keeps the low nibble of the flag byte.
pub proof fn lemma_flags_keep_low_nibble()
    ensures
        forall|f: u8, v: bool| (#[trigger] with_flag(f, Z_FLAG, v)) & 0x0F == f & 0x0F,
        forall|f: u8, v: bool| (#[trigger] with_flag(f, N_FLAG, v)) & 0x0F == f & 0x0F,
        forall|f: u8, v: bool| (#[trigger] with_flag(f, H_FLAG, v)) & 0x0F == f & 0x0F,
        forall|f: u8, v: bool| (#[trigger] with_flag(f, C_FLAG, v)) & 0x0F == f & 0x0F,
{
    assert forall|f: u8, v: bool| (#[trigger] with_flag(f, Z_FLAG, v)) & 0x0F == f & 0x0F by {
        lemma_flag_bits(f, Z_FLAG, N_FLAG);
    }
    assert forall|f: u8, v: bool| (#[trigger] with_flag(f, N_FLAG, v)) & 0x0F == f & 0x0F by {
        lemma_flag_bits(f, N_FLAG, Z_FLAG);
    }
    assert forall|f: u8, v: bool| (#[trigger] with_flag(f, H_FLAG, v)) & 0x0F == f & 0x0F by {
        lemma_flag_bits(f, H_FLAG, Z_FLAG);
    }
    assert forall|f: u8, v: bool| (#[trigger] with_flag(f, C_FLAG, v)) & 0x0F == f & 0x0F by {
        lemma_flag_bits(f, C_FLAG, Z_FLAG);
    }
}

/// The flags that an operation of the arithmetic and logic unit sets
/// keep the low nibble of F.
proof fn lemma_alu_flags_keep_low_nibble(state: CpuState, op: ALUOP, a: u8, b: u8, cin: u8)
    ensures
        state.with_alu_flags(op, a, b, cin).f & 0x0F == state.f & 0x0F,
        state.with_alu_flags(op, a, b, cin).bus == state.bus,
{
    lemma_flags_keep_low_nibble();
}

/// No operation other than the prefix sets a bit in the low nibble of F.
pub proof fn lemma_plain_keeps_flags_clean(state: CpuState, instruction: Instruction)
    requires
        state.flags_clean(),
    ensures
        state.execute_plain(instruction).flags_clean(),
{
    let after = state.execute_plain(instruction);
    match instruction {
        Instruction::Pop(pair) => {
            let low = low_byte(state.top());
            assert((low & 0xF0) & 0x0F == 0) by (bit_vector);
        },
        Instruction::Alu(op, source) => {
            let b = state.load(source);
            let cin = carry_in(state.flag_c());
            lemma_alu_flags_keep_low_nibble(state, ALUOP::ADD, state.a, b, 0);
            lemma_alu_flags_keep_low_nibble(state, ALUOP::ADD, state.a, b, cin);
            lemma_alu_flags_keep_low_nibble(state, ALUOP::SUB, state.a, b, 0);
            lemma_alu_flags_keep_low_nibble(state, ALUOP::SUB, state.a, b, cin);
            lemma_alu_flags_keep_low_nibble(state, ALUOP::AND, state.a, b, 0);
            lemma_alu_flags_keep_low_nibble(state, ALUOP::XOR, state.a, b, 0);
            lemma_alu_flags_keep_low_nibble(state, ALUOP::OR, state.a, b, 0);
            assert(after.f & 0x0F == state.f & 0x0F);
        },
        Instruction::Inc(target) => {
            lemma_alu_flags_keep_low_nibble(state, ALUOP::INC, state.load(target), 1, 0);
            assert(after.f & 0x0F == state.f & 0x0F);
        },
        Instruction::Dec(target) => {
            lemma_alu_flags_keep_low_nibble(state, ALUOP::DEC, state.load(target), 1, 0);
            assert(after.f & 0x0F == state.f & 0x0F);
        },
        Instruction::Ld(destination, source) => {
            assert(after.f == state.f);
        },
        Instruction::Shift(op, target) => {
            lemma_flags_keep_low_nibble();
            assert(state.store(target, shift_value(op, state.load(target), state.flag_c())).f
                == state.f);
        },
        Instruction::Res(bit, target) => {
            assert(after.f == state.f);
        },
        Instruction::SetBit(bit, target) => {
            assert(after.f == state.f);
        },
        _ => {
            lemma_flags_keep_low_nibble();
        },
    }
}

/// The low nibble of F is zero after every operation, if it was zero
/// before.
pub proof fn law_flags_stay_clean(state: CpuState, instruction: Instruction)
    requires
        state.flags_clean(),
    ensures
        state.execute(instruction).flags_clean(),
{
    match instruction {
        Instruction::Prefix => {
            lemma_plain_keeps_flags_clean(state.skip(1), decode_cb(state.imm8()));
        },
        _ => {
            lemma_plain_keeps_flags_clean(state, instruction);
        },
    }
}

/// Every operation keeps the bus well formed.
pub proof fn law_execute_keeps_wf(state: CpuState, instruction: Instruction)
    requires
        state.wf(),
    ensures
        state.execute(instruction).wf(),
{
    match instruction {
        Instruction::Prefix => {
            lemma_plain_keeps_wf(state.skip(1), decode_cb(state.imm8()));
        },
        _ => {
            lemma_plain_keeps_wf(state, instruction);
        },
    }
}

/// Storing a byte in an operand keeps the bus well formed.
proof fn lemma_store_keeps_wf(state: CpuState, operand: Operand, value: u8)
    requires
        state.wf(),
    ensures
        state.store(operand, value).wf(),
{
    lemma_write_keeps_wf(state.bus, state.operand_address(operand), value);
}

/// Pushing a word keeps the bus well formed.
proof fn lemma_push_keeps_wf(state: CpuState, value: u16)
    requires
        state.wf(),
    ensures
        state.pushed(value).wf(),
{
    let sp = address_after(state.sp, -2);
    lemma_write_keeps_wf(state.bus, sp, low_byte(value));
    lemma_write_keeps_wf(state.bus.write(sp, low_byte(value)), address_after(sp, 1), high_byte(value));
}

/// The operations that write neither to memory nor to the stack leave the
/// bus alone.
proof fn lemma_registers_only(state: CpuState, instruction: Instruction)
    requires
        match instruction {
            Instruction::Ld(_, _) => false,
            Instruction::LdNNSp => false,
            Instruction::Push(_) => false,
            Instruction::Inc(_) => false,
            Instruction::Dec(_) => false,
            Instruction::Call => false,
            Instruction::CallCc(_) => false,
            Instruction::Rst(_) => false,
            Instruction::Shift(_, _) => false,
            Instruction::Res(_, _) => false,
            Instruction::SetBit(_, _) => false,
            _ => true,
        },
    ensures
        state.execute_plain(instruction).bus == state.bus,
{
}

/// No operation other than the prefix breaks the bus.
proof fn lemma_plain_keeps_wf(state: CpuState, instruction: Instruction)
    requires
        state.wf(),
    ensures
        state.execute_plain(instruction).wf(),
{
    match instruction {
        Instruction::Ld(destination, source) => {
            lemma_store_keeps_wf(state, destination, state.load(source));
        },
        Instruction::LdNNSp => {
            let at = state.imm16();
            lemma_write_keeps_wf(state.bus, at, low_byte(state.sp));
            lemma_write_keeps_wf(
                state.bus.write(at, low_byte(state.sp)),
                address_after(at, 1),
                high_byte(state.sp),
            );
        },
        Instruction::Push(pair) => {
            lemma_push_keeps_wf(state, state.stack_reg(pair));
        },
        Instruction::Inc(target) => {
            let value = state.load(target);
            lemma_store_keeps_wf(
                state.with_alu_flags(ALUOP::INC, value, 1, 0),
                target,
                alu_value(ALUOP::INC, value, 1, 0),
            );
        },
        Instruction::Dec(target) => {
            let value = state.load(target);
            lemma_store_keeps_wf(
                state.with_alu_flags(ALUOP::DEC, value, 1, 0),
                target,
                alu_value(ALUOP::DEC, value, 1, 0),
            );
        },
        Instruction::Call => {
            lemma_push_keeps_wf(state, address_after(state.pc, 2));
        },
        Instruction::CallCc(condition) => {
            lemma_push_keeps_wf(state, address_after(state.pc, 2));
        },
        Instruction::Rst(t) => {
            lemma_push_keeps_wf(state, state.pc);
        },
        Instruction::Shift(op, target) => {
            lemma_store_keeps_wf(state, target, shift_value(op, state.load(target), state.flag_c()));
        },
        Instruction::Res(bit, target) => {
            lemma_store_keeps_wf(state, target, state.load(target) & !(1u8 << bit));
        },
        Instruction::SetBit(bit, target) => {
            lemma_store_keeps_wf(state, target, state.load(target) | (1u8 << bit));
        },
        _ => {
            lemma_registers_only(state, instruction);
        },
    }
}

/// A tick and the look at the interrupts that follows it keep the low
/// nibble of F zero.
pub proof fn law_tick_keeps_flags_clean(state: CpuState)
    requires
        state.flags_clean(),
    ensures
        state.after_tick().flags_clean(),
        state.after_interrupts().flags_clean(),
{
    if !state.is_halted {
        law_flags_stay_clean(state.fetched().0, state.fetched().1);
    }
}

} // verus!
