use gb_core::machine::{Error, CPU};
use gb_core::opcodes::opcode::OPCode;
use gb_core::opcodes::semantics::ALUOP;
use gb_core::opcodes::{AluOp, Condition, Instruction, Operand, Reg16, Reg8, ShiftOp, StackReg};

const ILLEGAL: [u8; 11] = [
    0xD3, 0xDB, 0xDD, 0xE3, 0xE4, 0xEB, 0xEC, 0xED, 0xF4, 0xFC, 0xFD,
];

/// A processor with the program counter at 0xC000, where the given bytes
/// are placed, and the stack pointer at the top of high RAM.
fn cpu_with(bytes: &[u8]) -> CPU {
    let mut cpu = CPU::new();
    cpu.pc = 0xC000;
    cpu.sp = 0xFFFE;
    for (i, byte) in bytes.iter().enumerate() {
        cpu.memory_bus.write_byte(0xC000 + i as u16, *byte);
    }
    cpu
}

fn flags(cpu: &CPU) -> (bool, bool, bool, bool) {
    (cpu.z(), cpu.n(), cpu.h(), cpu.c())
}

#[test]
fn test_op_0b11111000() {
    let mut cpu = CPU::new();
    cpu.sp = 0b00000000_11111111;
    cpu.pc = 0xC000;
    cpu.memory_bus.write_byte(cpu.pc, 0b00000001);
    // LD HL, both flags set
    OPCode::exec(&mut cpu, 0b11111000, false);
    assert_eq!(cpu.hl(), 0b00000001_00000000);
    assert_eq!(cpu.f, 0b00110000);

    cpu.sp = 0b00000000_11111111;
    cpu.pc = 0xC000;
    cpu.memory_bus.write_byte(cpu.pc, 0);
    // LD HL, both flags unset
    OPCode::exec(&mut cpu, 0b11111000, false);
    assert_eq!(cpu.hl(), 0b00000000_11111111);
    assert_eq!(cpu.f, 0b00000000);

    cpu.sp = 0b00000000_11101111;
    cpu.pc = 0xC000;
    cpu.memory_bus.write_byte(cpu.pc, 0b00000001);
    // LD HL, H flag set, N flag unset
    OPCode::exec(&mut cpu, 0b11111000, false);
    assert_eq!(cpu.hl(), 0b00000000_11110000);
    assert_eq!(cpu.f, 0b00100000);

    cpu.sp = 0b00000000_11110000;
    cpu.pc = 0xC000;
    cpu.memory_bus.write_byte(cpu.pc, 0b00010000);
    // LD HL, H flag unset, N flag
    OPCode::exec(&mut cpu, 0b11111000, false);
    assert_eq!(cpu.hl(), 0b00000001_00000000);
    assert_eq!(cpu.f, 0b00010000);
}

#[test]
fn ld_hl_sp_plus_offset_low_sp() {
    let mut cpu = cpu_with(&[0x01]);
    cpu.sp = 0x00FF;
    cpu.f = 0xC0;
    let cycles = OPCode::exec(&mut cpu, 0xF8, false);
    assert_eq!(cpu.hl(), 0x0100);
    assert_eq!(cpu.f, 0b0011_0000);
    assert_eq!(cpu.sp, 0x00FF);
    assert_eq!(cpu.pc, 0xC001);
    assert_eq!(cycles, 3);
}

#[test]
fn ld_hl_sp_plus_negative_offset() {
    let mut cpu = cpu_with(&[0xFF]);
    cpu.sp = 0x0100;
    OPCode::exec(&mut cpu, 0xF8, false);
    assert_eq!(cpu.hl(), 0x00FF);
    assert_eq!(flags(&cpu), (false, false, false, false));
    // The flags follow the unsigned sum of the low bytes even when the
    // offset is negative: 0x01 + 0xFF carries out of both nibbles.
    let mut cpu = cpu_with(&[0xFF]);
    cpu.sp = 0x0001;
    OPCode::exec(&mut cpu, 0xF8, false);
    assert_eq!(cpu.hl(), 0x0000);
    assert_eq!(flags(&cpu), (false, false, true, true));
    let mut cpu = cpu_with(&[0x80]);
    cpu.sp = 0x0000;
    OPCode::exec(&mut cpu, 0xF8, false);
    assert_eq!(cpu.hl(), 0xFF80);
}

#[test]
fn add_sp_offset() {
    let mut cpu = cpu_with(&[0x01]);
    cpu.sp = 0x00FF;
    cpu.f = 0xC0;
    let cycles = OPCode::exec(&mut cpu, 0xE8, false);
    assert_eq!(cpu.sp, 0x0100);
    assert_eq!(cpu.f, 0b0011_0000);
    assert_eq!(cpu.pc, 0xC001);
    assert_eq!(cycles, 4);
    let mut cpu = cpu_with(&[0xFE]);
    cpu.sp = 0xFFFE;
    OPCode::exec(&mut cpu, 0xE8, false);
    assert_eq!(cpu.sp, 0xFFFC);
    assert_eq!(flags(&cpu), (false, false, true, true));
}

#[test]
fn add_immediate_wrapping_carry() {
    let mut cpu = cpu_with(&[0x20]);
    cpu.a = 0xF0;
    let cycles = OPCode::exec(&mut cpu, 0xC6, false);
    assert_eq!(cpu.a, 0x10);
    assert_eq!(cpu.f, 0b0001_0000);
    assert_eq!(cpu.pc, 0xC001);
    assert_eq!(cycles, 2);
}

#[test]
fn sub_immediate_half_borrow() {
    let mut cpu = cpu_with(&[0x01]);
    cpu.a = 0x10;
    let cycles = OPCode::exec(&mut cpu, 0xD6, false);
    assert_eq!(cpu.a, 0x0F);
    assert_eq!(cpu.f, 0b0110_0000);
    assert_eq!(cycles, 2);
}

#[test]
fn daa_after_add() {
    let mut cpu = cpu_with(&[]);
    cpu.a = 0x3C;
    cpu.set_h(true);
    let cycles = OPCode::exec(&mut cpu, 0x27, false);
    assert_eq!(cpu.a, 0x42);
    assert!(!cpu.z());
    assert!(!cpu.c());
    assert!(!cpu.h());
    assert_eq!(cycles, 1);
    // The same sum through ADD: 0x15 + 0x27.
    let mut cpu = cpu_with(&[0x27]);
    cpu.a = 0x15;
    OPCode::exec(&mut cpu, 0xC6, false);
    assert_eq!(cpu.a, 0x3C);
    OPCode::exec(&mut cpu, 0x27, false);
    assert_eq!(cpu.a, 0x42);
    assert_eq!(flags(&cpu), (false, false, false, false));
}

#[test]
fn daa_round_trip_after_add() {
    for x in 0..100u8 {
        for y in 0..100u8 {
            let mut cpu = cpu_with(&[]);
            cpu.a = (x / 10) << 4 | (x % 10);
            cpu.b = (y / 10) << 4 | (y % 10);
            OPCode::exec(&mut cpu, 0x80, false);
            OPCode::exec(&mut cpu, 0x27, false);
            let sum = (x + y) % 100;
            assert_eq!(cpu.a, (sum / 10) << 4 | (sum % 10));
            assert_eq!(cpu.c(), x + y >= 100);
            assert_eq!(cpu.z(), sum == 0);
        }
    }
}

#[test]
fn daa_round_trip_after_sub() {
    for x in 0..100u8 {
        for y in 0..100u8 {
            let mut cpu = cpu_with(&[]);
            cpu.a = (x / 10) << 4 | (x % 10);
            cpu.b = (y / 10) << 4 | (y % 10);
            OPCode::exec(&mut cpu, 0x90, false);
            OPCode::exec(&mut cpu, 0x27, false);
            let difference = (100 + x - y) % 100;
            assert_eq!(cpu.a, (difference / 10) << 4 | (difference % 10));
            assert_eq!(cpu.c(), x < y);
        }
    }
}

#[test]
fn rlc_a_on_the_cb_page() {
    let mut cpu = cpu_with(&[]);
    cpu.a = 0x80;
    let cycles = OPCode::exec(&mut cpu, 0x07, true);
    assert_eq!(cpu.a, 0x01);
    assert_eq!(flags(&cpu), (false, false, false, true));
    assert_eq!(cycles, 2);
    // Zero rotates to zero and sets Z on the CB page.
    cpu.a = 0x00;
    OPCode::exec(&mut cpu, 0x07, true);
    assert_eq!(flags(&cpu), (true, false, false, false));
}

#[test]
fn bit_7_h() {
    let mut cpu = cpu_with(&[]);
    cpu.h = 0x7F;
    cpu.set_c(true);
    cpu.set_n(true);
    let cycles = OPCode::exec(&mut cpu, 0x7C, true);
    assert_eq!(flags(&cpu), (true, false, true, true));
    assert_eq!(cpu.h, 0x7F);
    assert_eq!(cycles, 2);
    cpu.h = 0x80;
    cpu.set_c(false);
    OPCode::exec(&mut cpu, 0x7C, true);
    assert_eq!(flags(&cpu), (false, false, true, false));
}

#[test]
fn call_then_ret() {
    let mut cpu = cpu_with(&[0xCD, 0x34, 0x12]);
    let t_states = cpu.tick();
    assert_eq!(cpu.pc, 0x1234);
    assert_eq!(cpu.sp, 0xFFFC);
    assert_eq!(cpu.memory_bus.read_word(cpu.sp), 0xC003);
    assert_eq!(t_states, 20);
    let cycles = OPCode::exec(&mut cpu, 0xC9, false);
    assert_eq!(cpu.pc, 0xC003);
    assert_eq!(cpu.sp, 0xFFFE);
    assert_eq!(cycles, 4);
}

#[test]
fn decoder_is_total() {
    for opcode in 0..=255u8 {
        let decoded = OPCode::decode(opcode, false);
        assert_eq!(decoded.is_none(), ILLEGAL.contains(&opcode));
        assert!(OPCode::decode(opcode, true).is_some());
    }
}

#[test]
fn decoder_specific_opcodes() {
    let a = Operand::Reg(Reg8::A);
    let cases = [
        (0x00, Instruction::Nop),
        (0x10, Instruction::Stop),
        (0x76, Instruction::Halt),
        (0xF3, Instruction::Di),
        (0xFB, Instruction::Ei),
        (0xCB, Instruction::Prefix),
        (0x36, Instruction::Ld(Operand::AtHL, Operand::Immediate)),
        (0xF9, Instruction::LdSpHl),
        (0xF0, Instruction::Ld(a, Operand::AtHighN)),
        (0xE0, Instruction::Ld(Operand::AtHighN, a)),
        (0xF2, Instruction::Ld(a, Operand::AtHighC)),
        (0xE2, Instruction::Ld(Operand::AtHighC, a)),
        (0xFA, Instruction::Ld(a, Operand::AtNN)),
        (0xEA, Instruction::Ld(Operand::AtNN, a)),
        (0x0A, Instruction::Ld(a, Operand::AtBC)),
        (0x1A, Instruction::Ld(a, Operand::AtDE)),
        (0x2A, Instruction::Ld(a, Operand::AtHLInc)),
        (0x3A, Instruction::Ld(a, Operand::AtHLDec)),
        (0x02, Instruction::Ld(Operand::AtBC, a)),
        (0x12, Instruction::Ld(Operand::AtDE, a)),
        (0x22, Instruction::Ld(Operand::AtHLInc, a)),
        (0x32, Instruction::Ld(Operand::AtHLDec, a)),
        (0x08, Instruction::LdNNSp),
        (0xF8, Instruction::LdHlSpE),
        (0xE8, Instruction::AddSpE),
        (0x86, Instruction::Alu(AluOp::Add, Operand::AtHL)),
        (0x8E, Instruction::Alu(AluOp::Adc, Operand::AtHL)),
        (0x96, Instruction::Alu(AluOp::Sub, Operand::AtHL)),
        (0x9E, Instruction::Alu(AluOp::Sbc, Operand::AtHL)),
        (0xA6, Instruction::Alu(AluOp::And, Operand::AtHL)),
        (0xAE, Instruction::Alu(AluOp::Xor, Operand::AtHL)),
        (0xB6, Instruction::Alu(AluOp::Or, Operand::AtHL)),
        (0xBE, Instruction::Alu(AluOp::Cp, Operand::AtHL)),
        (0xC6, Instruction::Alu(AluOp::Add, Operand::Immediate)),
        (0xCE, Instruction::Alu(AluOp::Adc, Operand::Immediate)),
        (0xD6, Instruction::Alu(AluOp::Sub, Operand::Immediate)),
        (0xDE, Instruction::Alu(AluOp::Sbc, Operand::Immediate)),
        (0xE6, Instruction::Alu(AluOp::And, Operand::Immediate)),
        (0xEE, Instruction::Alu(AluOp::Xor, Operand::Immediate)),
        (0xF6, Instruction::Alu(AluOp::Or, Operand::Immediate)),
        (0xFE, Instruction::Alu(AluOp::Cp, Operand::Immediate)),
        (0x34, Instruction::Inc(Operand::AtHL)),
        (0x35, Instruction::Dec(Operand::AtHL)),
        (0x27, Instruction::Daa),
        (0x2F, Instruction::Cpl),
        (0x37, Instruction::Scf),
        (0x3F, Instruction::Ccf),
        (0x07, Instruction::Rlca),
        (0x0F, Instruction::Rrca),
        (0x17, Instruction::Rla),
        (0x1F, Instruction::Rra),
        (0xC3, Instruction::Jp),
        (0xE9, Instruction::JpHl),
        (0x18, Instruction::Jr),
        (0xCD, Instruction::Call),
        (0xC9, Instruction::Ret),
        (0xD9, Instruction::Reti),
    ];
    for (opcode, instruction) in cases {
        assert_eq!(OPCode::decode(opcode, false), Some(instruction));
    }
}

#[test]
fn decoder_masked_groups() {
    let registers = [
        (0u8, Reg8::B),
        (1, Reg8::C),
        (2, Reg8::D),
        (3, Reg8::E),
        (4, Reg8::H),
        (5, Reg8::L),
        (7, Reg8::A),
    ];
    for (x, rx) in registers {
        assert_eq!(
            OPCode::decode(0x06 | x << 3, false),
            Some(Instruction::Ld(Operand::Reg(rx), Operand::Immediate))
        );
        assert_eq!(
            OPCode::decode(0x46 | x << 3, false),
            Some(Instruction::Ld(Operand::Reg(rx), Operand::AtHL))
        );
        assert_eq!(
            OPCode::decode(0x70 | x, false),
            Some(Instruction::Ld(Operand::AtHL, Operand::Reg(rx)))
        );
        assert_eq!(
            OPCode::decode(0x04 | x << 3, false),
            Some(Instruction::Inc(Operand::Reg(rx)))
        );
        assert_eq!(
            OPCode::decode(0x05 | x << 3, false),
            Some(Instruction::Dec(Operand::Reg(rx)))
        );
        assert_eq!(
            OPCode::decode(0x80 | x, false),
            Some(Instruction::Alu(AluOp::Add, Operand::Reg(rx)))
        );
        assert_eq!(
            OPCode::decode(0xB8 | x, false),
            Some(Instruction::Alu(AluOp::Cp, Operand::Reg(rx)))
        );
        for (y, ry) in registers {
            assert_eq!(
                OPCode::decode(0x40 | x << 3 | y, false),
                Some(Instruction::Ld(Operand::Reg(rx), Operand::Reg(ry)))
            );
        }
    }
    let pairs = [Reg16::BC, Reg16::DE, Reg16::HL, Reg16::SP];
    let stack_pairs = [StackReg::BC, StackReg::DE, StackReg::HL, StackReg::AF];
    let conditions = [Condition::NZ, Condition::Z, Condition::NC, Condition::C];
    for i in 0..4u8 {
        let pair = pairs[i as usize];
        let stack_pair = stack_pairs[i as usize];
        let condition = conditions[i as usize];
        assert_eq!(
            OPCode::decode(0x01 | i << 4, false),
            Some(Instruction::LdImm16(pair))
        );
        assert_eq!(
            OPCode::decode(0x09 | i << 4, false),
            Some(Instruction::AddHl(pair))
        );
        assert_eq!(
            OPCode::decode(0x03 | i << 4, false),
            Some(Instruction::Inc16(pair))
        );
        assert_eq!(
            OPCode::decode(0x0B | i << 4, false),
            Some(Instruction::Dec16(pair))
        );
        assert_eq!(
            OPCode::decode(0xC5 | i << 4, false),
            Some(Instruction::Push(stack_pair))
        );
        assert_eq!(
            OPCode::decode(0xC1 | i << 4, false),
            Some(Instruction::Pop(stack_pair))
        );
        assert_eq!(
            OPCode::decode(0x20 | i << 3, false),
            Some(Instruction::JrCc(condition))
        );
        assert_eq!(
            OPCode::decode(0xC2 | i << 3, false),
            Some(Instruction::JpCc(condition))
        );
        assert_eq!(
            OPCode::decode(0xC4 | i << 3, false),
            Some(Instruction::CallCc(condition))
        );
        assert_eq!(
            OPCode::decode(0xC0 | i << 3, false),
            Some(Instruction::RetCc(condition))
        );
    }
    for t in 0..8u8 {
        assert_eq!(
            OPCode::decode(0xC7 | t << 3, false),
            Some(Instruction::Rst(t))
        );
    }
}

#[test]
fn decoder_cb_page() {
    let shifts = [
        ShiftOp::Rlc,
        ShiftOp::Rrc,
        ShiftOp::Rl,
        ShiftOp::Rr,
        ShiftOp::Sla,
        ShiftOp::Sra,
        ShiftOp::Swap,
        ShiftOp::Srl,
    ];
    for (i, op) in shifts.iter().enumerate() {
        assert_eq!(
            OPCode::decode((i as u8) << 3, true),
            Some(Instruction::Shift(*op, Operand::Reg(Reg8::B)))
        );
        assert_eq!(
            OPCode::decode((i as u8) << 3 | 6, true),
            Some(Instruction::Shift(*op, Operand::AtHL))
        );
    }
    for bit in 0..8u8 {
        assert_eq!(
            OPCode::decode(0x40 | bit << 3 | 7, true),
            Some(Instruction::Bit(bit, Operand::Reg(Reg8::A)))
        );
        assert_eq!(
            OPCode::decode(0x80 | bit << 3 | 6, true),
            Some(Instruction::Res(bit, Operand::AtHL))
        );
        assert_eq!(
            OPCode::decode(0xC0 | bit << 3 | 5, true),
            Some(Instruction::SetBit(bit, Operand::Reg(Reg8::L)))
        );
    }
    assert_eq!(OPCode::decode_cb_page(0x37), Instruction::Shift(ShiftOp::Swap, Operand::Reg(Reg8::A)));
}

#[test]
fn every_legal_opcode_runs() {
    for opcode in 0..=255u8 {
        if ILLEGAL.contains(&opcode) {
            continue;
        }
        let mut cpu = cpu_with(&[0x01, 0xC1]);
        cpu.set_hl(0xC123);
        let cycles = OPCode::exec(&mut cpu, opcode, false);
        assert!(cycles <= 6);
        assert_eq!(cpu.f & 0x0F, 0);
        let mut cpu = cpu_with(&[]);
        cpu.set_hl(0xC123);
        let cycles = OPCode::exec(&mut cpu, opcode, true);
        assert!(cycles >= 2 && cycles <= 4);
        assert_eq!(cpu.f & 0x0F, 0);
    }
}

#[test]
fn register_by_index() {
    let mut cpu = CPU::new();
    let order = [0b000u8, 0b001, 0b010, 0b011, 0b100, 0b101, 0b111];
    for (i, index) in order.iter().enumerate() {
        *OPCode::get_register_by_index(*index, &mut cpu).unwrap() = 10 + i as u8;
    }
    assert_eq!(
        (cpu.b, cpu.c, cpu.d, cpu.e, cpu.h, cpu.l, cpu.a),
        (10, 11, 12, 13, 14, 15, 16)
    );
    assert_eq!(*OPCode::get_register_by_index(0b111, &mut cpu).unwrap(), 16);
    assert!(matches!(
        OPCode::get_register_by_index(0b110, &mut cpu),
        Err(Error::OPCodeParseError)
    ));
    assert!(matches!(
        OPCode::get_register_by_index(8, &mut cpu),
        Err(Error::OPCodeParseError)
    ));
}

#[test]
fn stack_register_by_index() {
    let mut cpu = CPU::new();
    OPCode::set_stack_register_by_index(3, &mut cpu, 0x12FF);
    assert_eq!((cpu.a, cpu.f), (0x12, 0xF0));
    assert_eq!(OPCode::get_stack_register_by_index(3, &cpu), 0x12F0);
    OPCode::set_stack_register_by_index(0, &mut cpu, 0x3456);
    assert_eq!(OPCode::get_stack_register_by_index(0, &cpu), 0x3456);
    assert_eq!(cpu.bc(), 0x3456);
}

#[test]
fn fetching_moves_the_program_counter() {
    let mut cpu = cpu_with(&[0x12, 0x34, 0x56]);
    assert_eq!(OPCode::fetch_opcode_u8(&mut cpu).ok(), Some(0x12));
    assert_eq!(cpu.pc, 0xC001);
    assert_eq!(OPCode::fetch_opcode_u16(&mut cpu).ok(), Some(0x5634));
    assert_eq!(cpu.pc, 0xC003);
    cpu.pc = 0xFFFF;
    cpu.memory_bus.write_byte(0xFFFF, 0x77);
    assert_eq!(OPCode::fetch_opcode_u8(&mut cpu).ok(), Some(0x77));
    assert_eq!(cpu.pc, 0x0000);
}

#[test]
fn bits_of_bytes_and_words() {
    assert_eq!(OPCode::parse_bits_u8(0b1011_0001), [1, 0, 1, 1, 0, 0, 0, 1]);
    assert_eq!(OPCode::parse_bits_u8(0), [0; 8]);
    assert_eq!(OPCode::parse_bits_u8(0xFF), [1; 8]);
    assert_eq!(
        OPCode::parse_bits_u16(0x8001),
        [1, 0, 0, 0, 0, 0, 0, 0, 0, 0, 0, 0, 0, 0, 0, 1]
    );
    assert_eq!(OPCode::concat_bits(&[1, 0, 1]), 0b101);
    assert_eq!(OPCode::concat_bits(&[]), 0);
    assert_eq!(OPCode::concat_bits(&[1, 1, 1, 1, 1, 1, 1, 1]), 0xFF);
    assert_eq!(OPCode::concat_bits_u16(&[1, 1, 0]), 0b110);
    for value in 0..=255u8 {
        let bits = OPCode::parse_bits_u8(value);
        assert_eq!(OPCode::concat_bits(&bits), value);
        assert_eq!(OPCode::concat_bits(&bits[2..5]), (value >> 3) & 7);
        assert_eq!(OPCode::concat_bits_u16(&bits), value as u16);
    }
}

#[test]
fn alu_helper_rules() {
    let mut cpu = CPU::new();
    assert_eq!(gb_core_alu(&mut cpu, ALUOP::ADD, 0x0F, 0x01, 0), 0x10);
    assert_eq!(flags(&cpu), (false, false, true, false));
    assert_eq!(gb_core_alu(&mut cpu, ALUOP::ADD, 0xFF, 0x00, 1), 0x00);
    assert_eq!(flags(&cpu), (true, false, true, true));
    assert_eq!(gb_core_alu(&mut cpu, ALUOP::ADD, 0x80, 0x80, 0), 0x00);
    assert_eq!(flags(&cpu), (true, false, false, true));
    assert_eq!(gb_core_alu(&mut cpu, ALUOP::SUB, 0x00, 0x01, 0), 0xFF);
    assert_eq!(flags(&cpu), (false, true, true, true));
    assert_eq!(gb_core_alu(&mut cpu, ALUOP::SUB, 0x10, 0x0F, 1), 0x00);
    assert_eq!(flags(&cpu), (true, true, true, false));
    assert_eq!(gb_core_alu(&mut cpu, ALUOP::SUB, 0x00, 0xFF, 1), 0x00);
    assert_eq!(flags(&cpu), (true, true, true, true));
    assert_eq!(gb_core_alu(&mut cpu, ALUOP::AND, 0xF0, 0x0F, 0), 0x00);
    assert_eq!(flags(&cpu), (true, false, true, false));
    assert_eq!(gb_core_alu(&mut cpu, ALUOP::OR, 0xF0, 0x0F, 0), 0xFF);
    assert_eq!(flags(&cpu), (false, false, false, false));
    assert_eq!(gb_core_alu(&mut cpu, ALUOP::XOR, 0xFF, 0xFF, 0), 0x00);
    assert_eq!(flags(&cpu), (true, false, false, false));
    // INC and DEC leave the carry flag alone.
    cpu.set_c(true);
    assert_eq!(gb_core_alu(&mut cpu, ALUOP::INC, 0xFF, 1, 0), 0x00);
    assert_eq!(flags(&cpu), (true, false, true, true));
    assert_eq!(gb_core_alu(&mut cpu, ALUOP::DEC, 0x10, 1, 0), 0x0F);
    assert_eq!(flags(&cpu), (false, true, true, true));
    cpu.set_c(false);
    assert_eq!(gb_core_alu(&mut cpu, ALUOP::DEC, 0x01, 1, 0), 0x00);
    assert_eq!(flags(&cpu), (true, true, false, false));
    assert_eq!(gb_core_alu(&mut cpu, ALUOP::INC, 0x0E, 1, 0), 0x0F);
    assert_eq!(flags(&cpu), (false, false, false, false));
}

fn gb_core_alu(cpu: &mut CPU, op: ALUOP, a: u8, b: u8, carry: u8) -> u8 {
    gb_core::opcodes::alu_helper(cpu, op, a, b, carry)
}

#[test]
fn add_uses_the_register_value() {
    let mut cpu = cpu_with(&[]);
    cpu.a = 0x01;
    cpu.d = 0x41;
    assert_eq!(OPCode::exec(&mut cpu, 0x82, false), 1);
    assert_eq!(cpu.a, 0x42);
    // ADD A,A.
    assert_eq!(OPCode::exec(&mut cpu, 0x87, false), 1);
    assert_eq!(cpu.a, 0x84);
}

#[test]
fn adc_and_sbc_take_the_carry_in() {
    let mut cpu = cpu_with(&[0x00]);
    cpu.a = 0xFF;
    cpu.set_c(true);
    OPCode::exec(&mut cpu, 0xCE, false);
    assert_eq!(cpu.a, 0x00);
    assert_eq!(flags(&cpu), (true, false, true, true));
    let mut cpu = cpu_with(&[]);
    cpu.a = 0x10;
    cpu.b = 0x0F;
    cpu.set_c(true);
    OPCode::exec(&mut cpu, 0x98, false);
    assert_eq!(cpu.a, 0x00);
    assert_eq!(flags(&cpu), (true, true, true, false));
}

#[test]
fn cp_keeps_a() {
    let mut cpu = cpu_with(&[0x42]);
    cpu.a = 0x42;
    OPCode::exec(&mut cpu, 0xFE, false);
    assert_eq!(cpu.a, 0x42);
    assert_eq!(flags(&cpu), (true, true, false, false));
    cpu.l = 0x43;
    OPCode::exec(&mut cpu, 0xBD, false);
    assert_eq!(cpu.a, 0x42);
    assert_eq!(flags(&cpu), (false, true, true, true));
}

#[test]
fn alu_on_the_byte_at_hl() {
    let mut cpu = cpu_with(&[]);
    cpu.set_hl(0xC100);
    cpu.memory_bus.write_byte(0xC100, 0x0F);
    cpu.a = 0xF1;
    assert_eq!(OPCode::exec(&mut cpu, 0xA6, false), 2);
    assert_eq!(cpu.a, 0x01);
    assert_eq!(flags(&cpu), (false, false, true, false));
    assert_eq!(OPCode::exec(&mut cpu, 0xB6, false), 2);
    assert_eq!(cpu.a, 0x0F);
    assert_eq!(OPCode::exec(&mut cpu, 0xAE, false), 2);
    assert_eq!(cpu.a, 0x00);
    assert_eq!(flags(&cpu), (true, false, false, false));
}

#[test]
fn inc_and_dec() {
    let mut cpu = cpu_with(&[]);
    cpu.b = 0xFF;
    cpu.set_c(true);
    assert_eq!(OPCode::exec(&mut cpu, 0x04, false), 1);
    assert_eq!(cpu.b, 0x00);
    assert_eq!(flags(&cpu), (true, false, true, true));
    assert_eq!(OPCode::exec(&mut cpu, 0x05, false), 1);
    assert_eq!(cpu.b, 0xFF);
    assert_eq!(flags(&cpu), (false, true, true, true));
    cpu.set_hl(0xC200);
    cpu.memory_bus.write_byte(0xC200, 0x0F);
    assert_eq!(OPCode::exec(&mut cpu, 0x34, false), 3);
    assert_eq!(cpu.memory_bus.read_byte(0xC200), 0x10);
    assert_eq!(flags(&cpu), (false, false, true, true));
    assert_eq!(OPCode::exec(&mut cpu, 0x35, false), 3);
    assert_eq!(cpu.memory_bus.read_byte(0xC200), 0x0F);
    assert_eq!(flags(&cpu), (false, true, true, true));
}

#[test]
fn sixteen_bit_arithmetic() {
    let mut cpu = cpu_with(&[]);
    cpu.f = 0xF0;
    cpu.set_bc(0xFFFF);
    assert_eq!(OPCode::exec(&mut cpu, 0x03, false), 2);
    assert_eq!(cpu.bc(), 0x0000);
    assert_eq!(OPCode::exec(&mut cpu, 0x0B, false), 2);
    assert_eq!(cpu.bc(), 0xFFFF);
    assert_eq!(cpu.f, 0xF0);
    cpu.sp = 0x0000;
    OPCode::exec(&mut cpu, 0x3B, false);
    assert_eq!(cpu.sp, 0xFFFF);
    // ADD HL,DE: Z stays, N clears, H and C from bits 11 and 15.
    cpu.f = 0xC0;
    cpu.set_hl(0x0FFF);
    cpu.set_de(0x0001);
    assert_eq!(OPCode::exec(&mut cpu, 0x19, false), 2);
    assert_eq!(cpu.hl(), 0x1000);
    assert_eq!(flags(&cpu), (true, false, true, false));
    cpu.set_hl(0x8000);
    OPCode::exec(&mut cpu, 0x29, false);
    assert_eq!(cpu.hl(), 0x0000);
    assert_eq!(flags(&cpu), (true, false, false, true));
    cpu.set_z(false);
    cpu.set_hl(0xFFFF);
    cpu.sp = 0x0001;
    OPCode::exec(&mut cpu, 0x39, false);
    assert_eq!(cpu.hl(), 0x0000);
    assert_eq!(flags(&cpu), (false, false, true, true));
}

#[test]
fn flag_operations() {
    let mut cpu = cpu_with(&[]);
    cpu.f = 0xE0;
    assert_eq!(OPCode::exec(&mut cpu, 0x3F, false), 1);
    assert_eq!(flags(&cpu), (true, false, false, true));
    OPCode::exec(&mut cpu, 0x3F, false);
    assert_eq!(flags(&cpu), (true, false, false, false));
    cpu.f = 0xE0;
    assert_eq!(OPCode::exec(&mut cpu, 0x37, false), 1);
    assert_eq!(flags(&cpu), (true, false, false, true));
    cpu.a = 0x35;
    cpu.f = 0x90;
    assert_eq!(OPCode::exec(&mut cpu, 0x2F, false), 1);
    assert_eq!(cpu.a, 0xCA);
    assert_eq!(flags(&cpu), (true, true, true, true));
}

#[test]
fn daa_after_subtraction_keeps_the_carry() {
    let mut cpu = cpu_with(&[]);
    cpu.a = 0x00;
    cpu.b = 0x01;
    OPCode::exec(&mut cpu, 0x90, false);
    assert_eq!(cpu.a, 0xFF);
    OPCode::exec(&mut cpu, 0x27, false);
    assert_eq!(cpu.a, 0x99);
    assert_eq!(flags(&cpu), (false, true, false, true));
}

#[test]
fn rotates_of_a_clear_z() {
    let mut cpu = cpu_with(&[]);
    cpu.a = 0x80;
    cpu.f = 0xF0;
    assert_eq!(OPCode::exec(&mut cpu, 0x07, false), 1);
    assert_eq!(cpu.a, 0x01);
    assert_eq!(flags(&cpu), (false, false, false, true));
    cpu.a = 0x01;
    assert_eq!(OPCode::exec(&mut cpu, 0x0F, false), 1);
    assert_eq!(cpu.a, 0x80);
    assert_eq!(flags(&cpu), (false, false, false, true));
    // RLA shifts the old carry in.
    cpu.a = 0x80;
    cpu.set_c(false);
    assert_eq!(OPCode::exec(&mut cpu, 0x17, false), 1);
    assert_eq!(cpu.a, 0x00);
    assert_eq!(flags(&cpu), (false, false, false, true));
    assert_eq!(OPCode::exec(&mut cpu, 0x1F, false), 1);
    assert_eq!(cpu.a, 0x80);
    assert_eq!(flags(&cpu), (false, false, false, false));
}

#[test]
fn shifts_on_the_cb_page() {
    // (operation, input, carry in, output, carry out)
    let cases: [(u8, u8, bool, u8, bool); 14] = [
        (0x00, 0x85, false, 0x0B, true),
        (0x08, 0x01, false, 0x80, true),
        (0x10, 0x80, false, 0x00, true),
        (0x10, 0x01, true, 0x03, false),
        (0x18, 0x01, false, 0x00, true),
        (0x18, 0x02, true, 0x81, false),
        (0x20, 0xC1, false, 0x82, true),
        (0x28, 0x81, false, 0xC0, true),
        (0x28, 0x7E, true, 0x3F, false),
        (0x30, 0xA5, true, 0x5A, false),
        (0x30, 0x00, true, 0x00, false),
        (0x38, 0x81, false, 0x40, true),
        (0x38, 0x01, false, 0x00, true),
        (0x00, 0x00, true, 0x00, false),
    ];
    for (opcode, input, carry_in, output, carry_out) in cases {
        // On register D.
        let mut cpu = cpu_with(&[]);
        cpu.d = input;
        cpu.f = 0x60;
        cpu.set_c(carry_in);
        assert_eq!(OPCode::exec(&mut cpu, opcode | 2, true), 2);
        assert_eq!(cpu.d, output);
        assert_eq!(flags(&cpu), (output == 0, false, false, carry_out));
        // On the byte at HL.
        let mut cpu = cpu_with(&[]);
        cpu.set_hl(0xC080);
        cpu.memory_bus.write_byte(0xC080, input);
        cpu.set_c(carry_in);
        assert_eq!(OPCode::exec(&mut cpu, opcode | 6, true), 4);
        assert_eq!(cpu.memory_bus.read_byte(0xC080), output);
        assert_eq!(flags(&cpu), (output == 0, false, false, carry_out));
    }
}

#[test]
fn bit_res_and_set() {
    for bit in 0..8u8 {
        let mut cpu = cpu_with(&[]);
        cpu.e = 1 << bit;
        cpu.f = 0x50;
        assert_eq!(OPCode::exec(&mut cpu, 0x40 | bit << 3 | 3, true), 2);
        assert_eq!(flags(&cpu), (false, false, true, true));
        cpu.e = !(1 << bit);
        OPCode::exec(&mut cpu, 0x40 | bit << 3 | 3, true);
        assert_eq!(flags(&cpu), (true, false, true, true));
        cpu.e = 0xFF;
        assert_eq!(OPCode::exec(&mut cpu, 0x80 | bit << 3 | 3, true), 2);
        assert_eq!(cpu.e, !(1 << bit));
        cpu.e = 0x00;
        assert_eq!(OPCode::exec(&mut cpu, 0xC0 | bit << 3 | 3, true), 2);
        assert_eq!(cpu.e, 1 << bit);
        // RES and SET leave the flags that BIT left.
        assert_eq!(cpu.f, 0xB0);
        cpu.set_hl(0xC040);
        cpu.memory_bus.write_byte(0xC040, 0xFF);
        assert_eq!(OPCode::exec(&mut cpu, 0x46 | bit << 3, true), 3);
        assert!(!cpu.z());
        assert_eq!(OPCode::exec(&mut cpu, 0x86 | bit << 3, true), 4);
        assert_eq!(cpu.memory_bus.read_byte(0xC040), !(1 << bit));
        assert_eq!(OPCode::exec(&mut cpu, 0xC6 | bit << 3, true), 4);
        assert_eq!(cpu.memory_bus.read_byte(0xC040), 0xFF);
    }
}

#[test]
fn eight_bit_loads() {
    let mut cpu = cpu_with(&[0x42, 0x99]);
    assert_eq!(OPCode::exec(&mut cpu, 0x06, false), 2);
    assert_eq!(cpu.b, 0x42);
    assert_eq!(cpu.pc, 0xC001);
    assert_eq!(OPCode::exec(&mut cpu, 0x48, false), 1);
    assert_eq!(cpu.c, 0x42);
    cpu.set_hl(0xC300);
    assert_eq!(OPCode::exec(&mut cpu, 0x71, false), 2);
    assert_eq!(cpu.memory_bus.read_byte(0xC300), 0x42);
    assert_eq!(OPCode::exec(&mut cpu, 0x7E, false), 2);
    assert_eq!(cpu.a, 0x42);
    assert_eq!(OPCode::exec(&mut cpu, 0x36, false), 3);
    assert_eq!(cpu.memory_bus.read_byte(0xC300), 0x99);
    assert_eq!(cpu.pc, 0xC002);
    // LD L,(HL) reads through the old HL.
    assert_eq!(OPCode::exec(&mut cpu, 0x6E, false), 2);
    assert_eq!(cpu.hl(), 0xC399);
}

#[test]
fn loads_through_register_pairs() {
    let mut cpu = cpu_with(&[]);
    cpu.a = 0x11;
    cpu.set_bc(0xC400);
    cpu.set_de(0xC401);
    assert_eq!(OPCode::exec(&mut cpu, 0x02, false), 2);
    cpu.a = 0x22;
    assert_eq!(OPCode::exec(&mut cpu, 0x12, false), 2);
    assert_eq!(cpu.memory_bus.read_word(0xC400), 0x2211);
    assert_eq!(OPCode::exec(&mut cpu, 0x0A, false), 2);
    assert_eq!(cpu.a, 0x11);
    assert_eq!(OPCode::exec(&mut cpu, 0x1A, false), 2);
    assert_eq!(cpu.a, 0x22);
    cpu.set_hl(0xC400);
    assert_eq!(OPCode::exec(&mut cpu, 0x2A, false), 2);
    assert_eq!((cpu.a, cpu.hl()), (0x11, 0xC401));
    assert_eq!(OPCode::exec(&mut cpu, 0x3A, false), 2);
    assert_eq!((cpu.a, cpu.hl()), (0x22, 0xC400));
    cpu.a = 0x33;
    assert_eq!(OPCode::exec(&mut cpu, 0x22, false), 2);
    assert_eq!((cpu.memory_bus.read_byte(0xC400), cpu.hl()), (0x33, 0xC401));
    cpu.a = 0x44;
    assert_eq!(OPCode::exec(&mut cpu, 0x32, false), 2);
    assert_eq!((cpu.memory_bus.read_byte(0xC401), cpu.hl()), (0x44, 0xC400));
    cpu.set_hl(0xFFFF);
    OPCode::exec(&mut cpu, 0x2A, false);
    assert_eq!(cpu.hl(), 0x0000);
    OPCode::exec(&mut cpu, 0x3A, false);
    assert_eq!(cpu.hl(), 0xFFFF);
}

#[test]
fn loads_through_addresses() {
    let mut cpu = cpu_with(&[0x00, 0xC5, 0x00, 0xC5, 0x80, 0x80]);
    cpu.a = 0x5A;
    assert_eq!(OPCode::exec(&mut cpu, 0xEA, false), 4);
    assert_eq!(cpu.memory_bus.read_byte(0xC500), 0x5A);
    assert_eq!(cpu.pc, 0xC002);
    cpu.a = 0;
    assert_eq!(OPCode::exec(&mut cpu, 0xFA, false), 4);
    assert_eq!(cpu.a, 0x5A);
    assert_eq!(cpu.pc, 0xC004);
    assert_eq!(OPCode::exec(&mut cpu, 0xE0, false), 3);
    assert_eq!(cpu.memory_bus.read_byte(0xFF80), 0x5A);
    cpu.a = 0;
    assert_eq!(OPCode::exec(&mut cpu, 0xF0, false), 3);
    assert_eq!(cpu.a, 0x5A);
    assert_eq!(cpu.pc, 0xC006);
    cpu.c = 0x81;
    cpu.a = 0xA5;
    assert_eq!(OPCode::exec(&mut cpu, 0xE2, false), 3);
    assert_eq!(cpu.memory_bus.read_byte(0xFF81), 0xA5);
    cpu.a = 0;
    assert_eq!(OPCode::exec(&mut cpu, 0xF2, false), 3);
    assert_eq!(cpu.a, 0xA5);
    assert_eq!(cpu.pc, 0xC006);
}

#[test]
fn sixteen_bit_loads() {
    let mut cpu = cpu_with(&[0x34, 0x12, 0x00, 0xC6]);
    assert_eq!(OPCode::exec(&mut cpu, 0x21, false), 3);
    assert_eq!(cpu.hl(), 0x1234);
    assert_eq!(cpu.pc, 0xC002);
    assert_eq!(OPCode::exec(&mut cpu, 0xF9, false), 2);
    assert_eq!(cpu.sp, 0x1234);
    assert_eq!(OPCode::exec(&mut cpu, 0x08, false), 6);
    assert_eq!(cpu.memory_bus.read_word(0xC600), 0x1234);
    assert_eq!(cpu.pc, 0xC004);
    let mut cpu = cpu_with(&[0xFE, 0xFF]);
    OPCode::exec(&mut cpu, 0x31, false);
    assert_eq!(cpu.sp, 0xFFFE);
}

#[test]
fn push_and_pop() {
    for (push, pop) in [(0xC5u8, 0xC1u8), (0xD5, 0xD1), (0xE5, 0xE1), (0xF5, 0xF1)] {
        for value in [0x0000u16, 0x1230, 0xFFF0, 0xABC0] {
            let mut cpu = cpu_with(&[]);
            cpu.set_bc(value);
            cpu.set_de(value);
            cpu.set_hl(value);
            cpu.set_af(value);
            assert_eq!(OPCode::exec(&mut cpu, push, false), 4);
            assert_eq!(cpu.sp, 0xFFFC);
            assert_eq!(cpu.memory_bus.read_word(0xFFFC), value);
            cpu.set_bc(0);
            cpu.set_de(0);
            cpu.set_hl(0);
            cpu.set_af(0);
            assert_eq!(OPCode::exec(&mut cpu, pop, false), 3);
            assert_eq!(cpu.sp, 0xFFFE);
            let restored = [cpu.bc(), cpu.de(), cpu.hl(), cpu.af()];
            assert_eq!(restored[((push >> 4) & 3) as usize], value);
        }
    }
}

#[test]
fn pop_af_clears_the_low_nibble() {
    let mut cpu = cpu_with(&[]);
    cpu.sp = 0xC700;
    cpu.memory_bus.write_word(0xC700, 0x12FF);
    OPCode::exec(&mut cpu, 0xF1, false);
    assert_eq!(cpu.a, 0x12);
    assert_eq!(cpu.f, 0xF0);
    assert_eq!(cpu.sp, 0xC702);
}

#[test]
fn jumps() {
    let mut cpu = cpu_with(&[0x34, 0x12]);
    assert_eq!(OPCode::exec(&mut cpu, 0xC3, false), 4);
    assert_eq!(cpu.pc, 0x1234);
    cpu.set_hl(0xC123);
    assert_eq!(OPCode::exec(&mut cpu, 0xE9, false), 2);
    assert_eq!(cpu.pc, 0xC123);
    let mut cpu = cpu_with(&[0x05]);
    assert_eq!(OPCode::exec(&mut cpu, 0x18, false), 3);
    assert_eq!(cpu.pc, 0xC006);
    let mut cpu = cpu_with(&[0xFE]);
    assert_eq!(OPCode::exec(&mut cpu, 0x18, false), 3);
    assert_eq!(cpu.pc, 0xBFFF);
    let mut cpu = cpu_with(&[0x80]);
    OPCode::exec(&mut cpu, 0x18, false);
    assert_eq!(cpu.pc, 0xBF81);
}

#[test]
fn conditional_branches_cost_more_when_taken() {
    // (flags, the conditions NZ, Z, NC, C)
    let cases: [(u8, [bool; 4]); 4] = [
        (0x00, [true, false, true, false]),
        (0x80, [false, true, true, false]),
        (0x10, [true, false, false, true]),
        (0x90, [false, true, false, true]),
    ];
    for (f, taken) in cases {
        for condition in 0..4u8 {
            let holds = taken[condition as usize];
            let mut cpu = cpu_with(&[0x34, 0x12]);
            cpu.f = f;
            let cycles = OPCode::exec(&mut cpu, 0xC2 | condition << 3, false);
            assert_eq!(cycles, if holds { 4 } else { 3 });
            assert_eq!(cpu.pc, if holds { 0x1234 } else { 0xC002 });

            let mut cpu = cpu_with(&[0x10]);
            cpu.f = f;
            let cycles = OPCode::exec(&mut cpu, 0x20 | condition << 3, false);
            assert_eq!(cycles, if holds { 3 } else { 2 });
            assert_eq!(cpu.pc, if holds { 0xC011 } else { 0xC001 });

            let mut cpu = cpu_with(&[0x34, 0x12]);
            cpu.f = f;
            let cycles = OPCode::exec(&mut cpu, 0xC4 | condition << 3, false);
            assert_eq!(cycles, if holds { 5 } else { 4 });
            assert_eq!(cpu.pc, if holds { 0x1234 } else { 0xC002 });
            assert_eq!(cpu.sp, if holds { 0xFFFC } else { 0xFFFE });
            if holds {
                assert_eq!(cpu.memory_bus.read_word(0xFFFC), 0xC002);
            }

            let mut cpu = cpu_with(&[]);
            cpu.f = f;
            cpu.sp = 0xC800;
            cpu.memory_bus.write_word(0xC800, 0x4321);
            let cycles = OPCode::exec(&mut cpu, 0xC0 | condition << 3, false);
            assert_eq!(cycles, if holds { 5 } else { 2 });
            assert_eq!(cpu.pc, if holds { 0x4321 } else { 0xC000 });
            assert_eq!(cpu.sp, if holds { 0xC802 } else { 0xC800 });
        }
    }
}

#[test]
fn reti_enables_the_interrupts() {
    let mut cpu = cpu_with(&[]);
    cpu.sp = 0xC800;
    cpu.memory_bus.write_word(0xC800, 0x4321);
    assert_eq!(OPCode::exec(&mut cpu, 0xD9, false), 4);
    assert_eq!(cpu.pc, 0x4321);
    assert_eq!(cpu.sp, 0xC802);
    assert!(cpu.ime());
}

#[test]
fn rst_calls_its_vector() {
    for t in 0..8u8 {
        let mut cpu = cpu_with(&[]);
        assert_eq!(OPCode::exec(&mut cpu, 0xC7 | t << 3, false), 4);
        assert_eq!(cpu.pc, 8 * t as u16);
        assert_eq!(cpu.sp, 0xFFFC);
        assert_eq!(cpu.memory_bus.read_word(0xFFFC), 0xC000);
    }
}

#[test]
fn interrupt_switches() {
    let mut cpu = cpu_with(&[]);
    assert_eq!(OPCode::exec(&mut cpu, 0xFB, false), 1);
    assert!(cpu.ime());
    assert_eq!(OPCode::exec(&mut cpu, 0xF3, false), 1);
    assert!(!cpu.ime());
    assert_eq!(OPCode::exec(&mut cpu, 0x00, false), 1);
    assert_eq!(OPCode::op_00000000(), 1);
    assert_eq!(OPCode::exec_stop(&mut cpu), 0);
    assert_eq!(cpu.pc, 0xC000);
}

#[test]
fn halt_rules() {
    // The interrupts are enabled: halt.
    let mut cpu = cpu_with(&[]);
    cpu.set_ime(true);
    cpu.memory_bus.write_byte(0xFFFF, 0x01);
    cpu.memory_bus.write_byte(0xFF0F, 0x01);
    assert_eq!(OPCode::exec(&mut cpu, 0x76, false), 0);
    assert!(cpu.is_halted);
    // Disabled and nothing pending: halt.
    let mut cpu = cpu_with(&[]);
    cpu.memory_bus.write_byte(0xFFFF, 0x01);
    cpu.memory_bus.write_byte(0xFF0F, 0x02);
    OPCode::exec(&mut cpu, 0x76, false);
    assert!(cpu.is_halted);
    // Disabled and an enabled interrupt pending: no halt.
    let mut cpu = cpu_with(&[]);
    cpu.memory_bus.write_byte(0xFFFF, 0x03);
    cpu.memory_bus.write_byte(0xFF0F, 0x02);
    OPCode::exec(&mut cpu, 0x76, false);
    assert!(!cpu.is_halted);
}

#[test]
fn tick_counts_clock_cycles() {
    // NOP; LD A,0x12; SWAP A on the CB page; JP 0xC000.
    let mut cpu = cpu_with(&[0x00, 0x3E, 0x12, 0xCB, 0x37, 0xC3, 0x00, 0xC0]);
    assert_eq!(cpu.tick(), 4);
    assert_eq!(cpu.pc, 0xC001);
    assert_eq!(cpu.tick(), 8);
    assert_eq!((cpu.a, cpu.pc), (0x12, 0xC003));
    assert_eq!(cpu.tick(), 8);
    assert_eq!((cpu.a, cpu.pc), (0x21, 0xC005));
    assert_eq!(cpu.tick(), 16);
    assert_eq!(cpu.pc, 0xC000);
}

#[test]
fn tick_does_nothing_while_halted() {
    let mut cpu = cpu_with(&[0x3C]);
    cpu.is_halted = true;
    assert_eq!(cpu.tick(), 0);
    assert_eq!((cpu.a, cpu.pc), (0, 0xC000));
    assert_eq!(cpu.step(), Ok(0));
}

#[test]
fn tick_handles_stop() {
    let mut cpu = cpu_with(&[0x10, 0x00, 0x10, 0x3C]);
    assert_eq!(cpu.tick(), 0);
    assert_eq!(cpu.pc, 0xC002);
    // 0x10 before another byte runs as the base operation 0x10 and leaves
    // that byte to the next tick.
    assert_eq!(cpu.tick(), 0);
    assert_eq!(cpu.pc, 0xC003);
    assert_eq!(cpu.tick(), 4);
    assert_eq!(cpu.a, 1);
}

#[test]
fn prefix_through_the_base_page() {
    let mut cpu = cpu_with(&[0x37]);
    cpu.a = 0xF0;
    assert_eq!(OPCode::exec(&mut cpu, 0xCB, false), 2);
    assert_eq!(cpu.a, 0x0F);
    assert_eq!(cpu.pc, 0xC001);
}

#[test]
fn step_reports_bytes_without_operation() {
    for opcode in ILLEGAL {
        let mut cpu = cpu_with(&[opcode]);
        cpu.a = 7;
        assert_eq!(cpu.step(), Err(Error::OPCodeParseError));
        assert_eq!((cpu.a, cpu.pc, cpu.sp), (7, 0xC000, 0xFFFE));
    }
    let mut cpu = cpu_with(&[0x3C]);
    assert_eq!(cpu.step(), Ok(4));
    assert_eq!(cpu.a, 1);
}

#[test]
fn interrupt_dispatch() {
    for source in 0..5u8 {
        let mut cpu = cpu_with(&[]);
        cpu.pc = 0xC123;
        cpu.set_ime(true);
        cpu.is_halted = true;
        cpu.memory_bus.write_byte(0xFFFF, 0x1F);
        cpu.memory_bus.write_byte(0xFF0F, 0x10 | 1 << source);
        assert_eq!(cpu.service_interrupts(), 20);
        assert_eq!(cpu.pc, 0x40 + 8 * source as u16);
        assert_eq!(cpu.sp, 0xFFFC);
        assert_eq!(cpu.memory_bus.read_word(0xFFFC), 0xC123);
        assert!(!cpu.ime());
        assert!(!cpu.is_halted);
        let left = if source == 4 { 0x00 } else { 0x10 };
        assert_eq!(cpu.interrupt_flag(), left);
    }
}

#[test]
fn interrupts_that_are_not_taken() {
    // Nothing requested.
    let mut cpu = cpu_with(&[]);
    cpu.set_ime(true);
    cpu.is_halted = true;
    cpu.memory_bus.write_byte(0xFFFF, 0x1F);
    assert_eq!(cpu.service_interrupts(), 0);
    assert!(cpu.is_halted);
    assert_eq!(cpu.pc, 0xC000);
    // Requested but not enabled.
    cpu.memory_bus.write_byte(0xFFFF, 0x01);
    cpu.memory_bus.write_byte(0xFF0F, 0x02);
    assert_eq!(cpu.service_interrupts(), 0);
    assert!(cpu.is_halted);
    // Requested and enabled with the master enable clear: the processor
    // wakes up and the request stays.
    cpu.set_ime(false);
    cpu.memory_bus.write_byte(0xFFFF, 0x02);
    assert_eq!(cpu.service_interrupts(), 0);
    assert!(!cpu.is_halted);
    assert_eq!(cpu.pc, 0xC000);
    assert_eq!(cpu.interrupt_flag(), 0x02);
}
