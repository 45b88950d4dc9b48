//! The register file and the flags, the model of the processor, and the
//! fetch-decode-execute step with the interrupt dispatch that follows it.
use vstd::prelude::*;
use crate::machine::errors::Error;
use crate::machine::memory::{
    high_byte, low_byte, make_word, split_word, step_address, step_back, word_of, BusState, MemoryBus, IE, IF,
};
use crate::machine::time::Timer;
use crate::opcodes::instruction::{decode_base, is_illegal, law_decoder_is_total, Instruction};
use crate::opcodes::opcode::OPCode;

verus! {

/// The zero flag, bit 7 of F.
pub const Z_FLAG: u8 = 0b1000_0000;

/// The subtract flag, bit 6 of F.
pub const N_FLAG: u8 = 0b0100_0000;

/// The half-carry flag, bit 5 of F.
pub const H_FLAG: u8 = 0b0010_0000;

/// The carry flag, bit 4 of F.
pub const C_FLAG: u8 = 0b0001_0000;

/// Whether the flag with the given mask is set in a flag byte.
pub open spec fn flag_set(f: u8, mask: u8) -> bool {
    f & mask != 0
}

/// The flag byte with the masked flag set or cleared and every other bit
/// as it was.
pub open spec fn with_flag(f: u8, mask: u8, value: bool) -> u8 {
    if value {
        f | mask
    } else {
        f & !mask
    }
}

/// The processor as the instructions see it: the register file, the
/// interrupt master enable, the halt state and the address space.
pub ghost struct CpuState {
    pub a: u8,
    pub b: u8,
    pub c: u8,
    pub d: u8,
    pub e: u8,
    pub f: u8,
    pub h: u8,
    pub l: u8,
    pub pc: u16,
    pub sp: u16,
    pub ime: bool,
    pub is_halted: bool,
    pub bus: BusState,
    pub timer: Timer,
}

impl CpuState {
    pub open spec fn wf(self) -> bool {
        self.bus.wf()
    }

    /// The low nibble of F is zero.
    pub open spec fn flags_clean(self) -> bool {
        self.f & 0x0F == 0
    }

    /// The pair BC: B is the high byte, C the low byte.
    pub open spec fn bc(self) -> u16 {
        word_of(self.c, self.b)
    }

    pub open spec fn de(self) -> u16 {
        word_of(self.e, self.d)
    }

    pub open spec fn hl(self) -> u16 {
        word_of(self.l, self.h)
    }

    /// The pair AF: A is the high byte, F the low byte.
    pub open spec fn af(self) -> u16 {
        word_of(self.f, self.a)
    }

    pub open spec fn with_bc(self, value: u16) -> CpuState {
        CpuState { b: high_byte(value), c: low_byte(value), ..self }
    }

    pub open spec fn with_de(self, value: u16) -> CpuState {
        CpuState { d: high_byte(value), e: low_byte(value), ..self }
    }

    pub open spec fn with_hl(self, value: u16) -> CpuState {
        CpuState { h: high_byte(value), l: low_byte(value), ..self }
    }

    /// Writing AF keeps only the high nibble of the low byte: the low
    /// nibble of F is always zero.
    pub open spec fn with_af(self, value: u16) -> CpuState {
        CpuState { a: high_byte(value), f: low_byte(value) & 0xF0, ..self }
    }

    pub open spec fn flag_z(self) -> bool {
        flag_set(self.f, Z_FLAG)
    }

    pub open spec fn flag_n(self) -> bool {
        flag_set(self.f, N_FLAG)
    }

    pub open spec fn flag_h(self) -> bool {
        flag_set(self.f, H_FLAG)
    }

    pub open spec fn flag_c(self) -> bool {
        flag_set(self.f, C_FLAG)
    }

    pub open spec fn with_z(self, value: bool) -> CpuState {
        CpuState { f: with_flag(self.f, Z_FLAG, value), ..self }
    }

    pub open spec fn with_n(self, value: bool) -> CpuState {
        CpuState { f: with_flag(self.f, N_FLAG, value), ..self }
    }

    pub open spec fn with_h(self, value: bool) -> CpuState {
        CpuState { f: with_flag(self.f, H_FLAG, value), ..self }
    }

    pub open spec fn with_c(self, value: bool) -> CpuState {
        CpuState { f: with_flag(self.f, C_FLAG, value), ..self }
    }

    /// The state after power-on: every register zero, interrupts disabled,
    /// not halted, a blank bus.
    pub open spec fn power_on(timer: Timer) -> CpuState {
        CpuState {
            a: 0,
            b: 0,
            c: 0,
            d: 0,
            e: 0,
            f: 0,
            h: 0,
            l: 0,
            pc: 0,
            sp: 0,
            ime: false,
            is_halted: false,
            bus: BusState::blank(),
            timer,
        }
    }
}

/// The Sharp LR35902: eight 8-bit registers, the stack pointer, the program
/// counter, the interrupt master enable, the halt state, and the memory bus
/// that it drives.
pub struct CPU {
    /// The accumulator.
    pub a: u8,
    pub b: u8,
    pub c: u8,
    pub d: u8,
    pub e: u8,
    /// The flags Z, N, H and C in bits 7 to 4.
    pub f: u8,
    pub h: u8,
    pub l: u8,
    /// The program counter.
    pub pc: u16,
    /// The stack pointer.
    pub sp: u16,
    /// The interrupt master enable.
    pub ime: bool,
    pub is_halted: bool,
    pub memory_bus: MemoryBus,
    pub timer: Timer,
}

impl View for CPU {
    type V = CpuState;

    open spec fn view(&self) -> CpuState {
        CpuState {
            a: self.a,
            b: self.b,
            c: self.c,
            d: self.d,
            e: self.e,
            f: self.f,
            h: self.h,
            l: self.l,
            pc: self.pc,
            sp: self.sp,
            ime: self.ime,
            is_halted: self.is_halted,
            bus: self.memory_bus@,
            timer: self.timer,
        }
    }
}

impl CPU {
    /// The invariant of the processor: its bus is well formed.
    pub open spec fn wf(&self) -> bool {
        self.memory_bus.wf()
    }

    /// A processor after power-on.
    pub fn new() -> (cpu: CPU)
        ensures
            cpu.wf(),
            cpu@ == CpuState::power_on(cpu.timer),
            cpu.timer.cycles_counter == 0,
    {
        CPU {
            a: 0,
            f: 0,
            b: 0,
            c: 0,
            d: 0,
            e: 0,
            h: 0,
            l: 0,
            sp: 0,
            pc: 0,
            memory_bus: MemoryBus::new(),
            timer: Timer::new(),
            ime: false,
            is_halted: false,
        }
    }

    /// Returns the processor to its power-on state and clears the bus; a
    /// cartridge has to be loaded again afterwards.
    pub fn reset(&mut self)
        ensures
            final(self).wf(),
            final(self)@ == CpuState::power_on(final(self).timer),
            final(self).timer.cycles_counter == 0,
            final(self).timer.frequency == old(self).timer.frequency,
    {
        self.a = 0;
        self.f = 0;
        self.b = 0;
        self.c = 0;
        self.d = 0;
        self.e = 0;
        self.h = 0;
        self.l = 0;
        self.sp = 0;
        self.pc = 0;
        self.ime = false;
        self.is_halted = false;
        self.timer.reset();
        self.memory_bus.reset();
    }

    pub fn bc(&self) -> (value: u16)
        ensures
            value == self@.bc(),
    {
        make_word(self.c, self.b)
    }

    pub fn set_bc(&mut self, value: u16)
        ensures
            final(self)@ == old(self)@.with_bc(value),
            final(self).memory_bus == old(self).memory_bus,
    {
        let (low, high) = split_word(value);
        self.b = high;
        self.c = low;
    }

    pub fn de(&self) -> (value: u16)
        ensures
            value == self@.de(),
    {
        make_word(self.e, self.d)
    }

    pub fn set_de(&mut self, value: u16)
        ensures
            final(self)@ == old(self)@.with_de(value),
            final(self).memory_bus == old(self).memory_bus,
    {
        let (low, high) = split_word(value);
        self.d = high;
        self.e = low;
    }

    pub fn hl(&self) -> (value: u16)
        ensures
            value == self@.hl(),
    {
        make_word(self.l, self.h)
    }

    pub fn set_hl(&mut self, value: u16)
        ensures
            final(self)@ == old(self)@.with_hl(value),
            final(self).memory_bus == old(self).memory_bus,
    {
        let (low, high) = split_word(value);
        self.h = high;
        self.l = low;
    }

    /// The pair AF.
    pub fn af(&self) -> (value: u16)
        ensures
            value == self@.af(),
    {
        make_word(self.f, self.a)
    }

    /// Sets A and F from a word; the low nibble of F is forced to zero.
    pub fn set_af(&mut self, value: u16)
        ensures
            final(self)@ == old(self)@.with_af(value),
            final(self).memory_bus == old(self).memory_bus,
    {
        let (low, high) = split_word(value);
        self.a = high;
        self.f = low & 0xF0;
    }

    pub fn set_sp(&mut self, value: u16)
        ensures
            final(self)@ == (CpuState { sp: value, ..old(self)@ }),
            final(self).memory_bus == old(self).memory_bus,
    {
        self.sp = value;
    }

    fn set_flag(&mut self, mask: u8, value: bool)
        ensures
            final(self)@ == (CpuState { f: with_flag(old(self).f, mask, value), ..old(self)@ }),
            final(self).memory_bus == old(self).memory_bus,
    {
        if value {
            self.f = self.f | mask;
        } else {
            self.f = self.f & !mask;
        }
    }

    /// Sets or clears the zero flag and leaves the other flags alone.
    pub fn set_z(&mut self, value: bool)
        ensures
            final(self)@ == old(self)@.with_z(value),
            final(self).memory_bus == old(self).memory_bus,
    {
        self.set_flag(Z_FLAG, value);
    }

    pub fn z(&self) -> (set: bool)
        ensures
            set == self@.flag_z(),
    {
        self.f & Z_FLAG != 0
    }

    /// Sets or clears the subtract flag and leaves the other flags alone.
    pub fn set_n(&mut self, value: bool)
        ensures
            final(self)@ == old(self)@.with_n(value),
            final(self).memory_bus == old(self).memory_bus,
    {
        self.set_flag(N_FLAG, value);
    }

    pub fn n(&self) -> (set: bool)
        ensures
            set == self@.flag_n(),
    {
        self.f & N_FLAG != 0
    }

    /// Sets or clears the half-carry flag and leaves the other flags alone.
    pub fn set_h(&mut self, value: bool)
        ensures
            final(self)@ == old(self)@.with_h(value),
            final(self).memory_bus == old(self).memory_bus,
    {
        self.set_flag(H_FLAG, value);
    }

    pub fn h(&self) -> (set: bool)
        ensures
            set == self@.flag_h(),
    {
        self.f & H_FLAG != 0
    }

    /// Sets or clears the carry flag and leaves the other flags alone.
    pub fn set_c(&mut self, value: bool)
        ensures
            final(self)@ == old(self)@.with_c(value),
            final(self).memory_bus == old(self).memory_bus,
    {
        self.set_flag(C_FLAG, value);
    }

    pub fn c(&self) -> (set: bool)
        ensures
            set == self@.flag_c(),
    {
        self.f & C_FLAG != 0
    }

    pub fn set_ime(&mut self, value: bool)
        ensures
            final(self)@ == (CpuState { ime: value, ..old(self)@ }),
            final(self).memory_bus == old(self).memory_bus,
    {
        self.ime = value;
    }

    pub fn ime(&mut self) -> (enabled: bool)
        ensures
            enabled == old(self).ime,
            *final(self) == *old(self),
    {
        self.ime
    }

    /// The interrupt flag register IF at 0xFF0F.
    pub fn interrupt_flag(&self) -> (flags: u8)
        requires
            self.wf(),
        ensures
            flags == self@.bus.read(IF),
    {
        self.memory_bus.read_byte(IF)
    }

    /// The interrupt enable register IE at 0xFFFF.
    pub fn ie(&self) -> (enabled: u8)
        requires
            self.wf(),
        ensures
            enabled == self@.bus.read(IE),
    {
        self.memory_bus.read_byte(IE)
    }
}

/// A pair that is set and read back holds the value it was set to.
pub proof fn law_register_pairs_round_trip(state: CpuState, value: u16)
    ensures
        state.with_bc(value).bc() == value,
        state.with_de(value).de() == value,
        state.with_hl(value).hl() == value,
{
    reveal(word_of);
    reveal(low_byte);
    reveal(high_byte);
}

/// Setting or clearing the bit `m` of the high nibble changes that bit and
/// leaves another bit `k` of the high nibble, and the low nibble, alone.
pub proof fn lemma_flag_bits(f: u8, m: u8, k: u8)
    by (bit_vector)
    requires
        m == 0x80 || m == 0x40 || m == 0x20 || m == 0x10,
        k == 0x80 || k == 0x40 || k == 0x20 || k == 0x10,
        m != k,
    ensures
        ((f | m) & k != 0) == (f & k != 0),
        ((f & !m) & k != 0) == (f & k != 0),
        (f | m) & m != 0,
        (f & !m) & m == 0,
        (f | m) & 0x0F == f & 0x0F,
        (f & !m) & 0x0F == f & 0x0F,
{
}

/// Setting or clearing one flag is seen by that flag alone: the other three
/// flags and the low nibble of F stay as they were. A flag byte whose low
/// nibble is zero keeps it zero.
pub proof fn law_flags_are_independent(f: u8, value: bool)
    ensures
        flag_set(with_flag(f, Z_FLAG, value), Z_FLAG) == value,
        flag_set(with_flag(f, Z_FLAG, value), N_FLAG) == flag_set(f, N_FLAG),
        flag_set(with_flag(f, Z_FLAG, value), H_FLAG) == flag_set(f, H_FLAG),
        flag_set(with_flag(f, Z_FLAG, value), C_FLAG) == flag_set(f, C_FLAG),
        flag_set(with_flag(f, N_FLAG, value), N_FLAG) == value,
        flag_set(with_flag(f, N_FLAG, value), Z_FLAG) == flag_set(f, Z_FLAG),
        flag_set(with_flag(f, N_FLAG, value), H_FLAG) == flag_set(f, H_FLAG),
        flag_set(with_flag(f, N_FLAG, value), C_FLAG) == flag_set(f, C_FLAG),
        flag_set(with_flag(f, H_FLAG, value), H_FLAG) == value,
        flag_set(with_flag(f, H_FLAG, value), Z_FLAG) == flag_set(f, Z_FLAG),
        flag_set(with_flag(f, H_FLAG, value), N_FLAG) == flag_set(f, N_FLAG),
        flag_set(with_flag(f, H_FLAG, value), C_FLAG) == flag_set(f, C_FLAG),
        flag_set(with_flag(f, C_FLAG, value), C_FLAG) == value,
        flag_set(with_flag(f, C_FLAG, value), Z_FLAG) == flag_set(f, Z_FLAG),
        flag_set(with_flag(f, C_FLAG, value), N_FLAG) == flag_set(f, N_FLAG),
        flag_set(with_flag(f, C_FLAG, value), H_FLAG) == flag_set(f, H_FLAG),
        with_flag(f, Z_FLAG, value) & 0x0F == f & 0x0F,
        with_flag(f, N_FLAG, value) & 0x0F == f & 0x0F,
        with_flag(f, H_FLAG, value) & 0x0F == f & 0x0F,
        with_flag(f, C_FLAG, value) & 0x0F == f & 0x0F,
{
    lemma_flag_bits(f, Z_FLAG, N_FLAG);
    lemma_flag_bits(f, Z_FLAG, H_FLAG);
    lemma_flag_bits(f, Z_FLAG, C_FLAG);
    lemma_flag_bits(f, N_FLAG, Z_FLAG);
    lemma_flag_bits(f, N_FLAG, H_FLAG);
    lemma_flag_bits(f, N_FLAG, C_FLAG);
    lemma_flag_bits(f, H_FLAG, Z_FLAG);
    lemma_flag_bits(f, H_FLAG, N_FLAG);
    lemma_flag_bits(f, H_FLAG, C_FLAG);
    lemma_flag_bits(f, C_FLAG, Z_FLAG);
    lemma_flag_bits(f, C_FLAG, N_FLAG);
    lemma_flag_bits(f, C_FLAG, H_FLAG);
}

} // verus!

verus! {

/// The machine cycles that the dispatch of an interrupt costs.
pub const INTERRUPT_DISPATCH_CYCLES: u32 = 5;

/// The lowest of the five interrupt sources that a byte of requests names,
/// if it names one: V-blank=0, LCD=1, timer=2, serial=3, joypad=4.
pub open spec fn first_interrupt(requests: u8) -> Option<u8> {
    if requests & 0x01 != 0 {
        Some(0u8)
    } else if requests & 0x02 != 0 {
        Some(1u8)
    } else if requests & 0x04 != 0 {
        Some(2u8)
    } else if requests & 0x08 != 0 {
        Some(3u8)
    } else if requests & 0x10 != 0 {
        Some(4u8)
    } else {
        None
    }
}

impl CpuState {
    /// Whether a tick can run: the processor is halted, or the byte at the
    /// program counter names an operation.
    pub open spec fn can_tick(self) -> bool {
        self.is_halted || !is_illegal(self.imm8())
    }

    /// The operation that a tick of a running processor performs, and the
    /// state in which it performs it. The opcode byte has been passed; STOP
    /// also passes the zero byte that belongs to it.
    pub open spec fn fetched(self) -> (CpuState, Instruction) {
        let opcode = self.imm8();
        if opcode == 0x10 && self.skip(1).imm8() == 0x00 {
            (self.skip(1).skip(1), Instruction::Stop)
        } else {
            (self.skip(1), decode_base(opcode).unwrap())
        }
    }

    /// The state after one tick: a halted processor stays as it is, a
    /// running one fetches an operation and performs it.
    pub open spec fn after_tick(self) -> CpuState {
        if self.is_halted {
            self
        } else {
            self.fetched().0.execute(self.fetched().1)
        }
    }

    /// The clock cycles of one tick: four for each machine cycle of the
    /// operation, none while halted.
    pub open spec fn tick_cycles(self) -> u32 {
        if self.is_halted {
            0
        } else {
            (4 * self.fetched().0.cycles(self.fetched().1)) as u32
        }
    }

    /// The state after the interrupts are looked at. A requested and
    /// enabled interrupt wakes a halted processor; if the master enable is
    /// set, the lowest such interrupt is taken: its request bit and the
    /// master enable are cleared, and its vector 0x40 + 8 * i is called.
    pub open spec fn after_interrupts(self) -> CpuState {
        let requests = self.bus.read(IE) & self.bus.read(IF);
        if requests == 0 {
            self
        } else if !self.ime {
            CpuState { is_halted: false, ..self }
        } else {
            match first_interrupt(requests) {
                Some(i) => CpuState {
                    is_halted: false,
                    ime: false,
                    bus: self.bus.write(IF, self.bus.read(IF) & !(1u8 << i)),
                    ..self
                }.call(self.pc, (0x40 + 8 * i) as u16),
                None => CpuState { is_halted: false, ..self },
            }
        }
    }

    /// The clock cycles that looking at the interrupts costs: those of the
    /// dispatch when an interrupt is taken, none otherwise.
    pub open spec fn interrupt_cycles(self) -> u32 {
        let requests = self.bus.read(IE) & self.bus.read(IF);
        if requests != 0 && self.ime && first_interrupt(requests) is Some {
            (4 * INTERRUPT_DISPATCH_CYCLES) as u32
        } else {
            0
        }
    }
}

impl CPU {
    /// One fetch-decode-execute step. A halted processor does nothing and
    /// reports no cycles. Otherwise the byte at the program counter is
    /// fetched; 0xCB fetches a second byte for the CB page; 0x10 followed
    /// by 0x00 passes both bytes and stops. Returns the clock cycles taken,
    /// four for each machine cycle.
    pub fn tick(&mut self) -> (cycles: u32)
        requires
            old(self).wf(),
            old(self)@.can_tick(),
        ensures
            final(self).wf(),
            final(self)@ == old(self)@.after_tick(),
            cycles == old(self)@.tick_cycles(),
    {
        if self.is_halted {
            return 0;
        }
        let first_byte: u8 = self.memory_bus.read_byte(self.pc);
        self.pc = step_address(self.pc, 1);
        let machine_cycles: u8 = if first_byte == 0xcb {
            let second_byte: u8 = self.memory_bus.read_byte(self.pc);
            self.pc = step_address(self.pc, 1);
            OPCode::exec(self, second_byte, true)
        } else if first_byte == 0x10 {
            let second_byte: u8 = self.memory_bus.read_byte(self.pc);
            if second_byte == 0x00 {
                self.pc = step_address(self.pc, 1);
                OPCode::exec_stop(self)
            } else {
                OPCode::exec(self, first_byte, false)
            }
        } else {
            proof {
                law_decoder_is_total(first_byte);
            }
            OPCode::exec(self, first_byte, false)
        };
        machine_cycles as u32 * 4
    }

    /// One tick, if the byte at the program counter names an operation;
    /// otherwise nothing changes and the byte is reported as unparsable.
    pub fn step(&mut self) -> (cycles: Result<u32, Error>)
        requires
            old(self).wf(),
        ensures
            final(self).wf(),
            old(self)@.can_tick() ==> final(self)@ == old(self)@.after_tick() && cycles == Ok::<
                u32,
                Error,
            >(old(self)@.tick_cycles()),
            !old(self)@.can_tick() ==> final(self)@ == old(self)@ && cycles == Err::<u32, Error>(
                Error::OPCodeParseError,
            ),
    {
        if !self.is_halted {
            let opcode: u8 = self.memory_bus.read_byte(self.pc);
            if OPCode::decode(opcode, false).is_none() {
                return Err(Error::OPCodeParseError);
            }
        }
        Ok(self.tick())
    }

    /// Looks at the interrupts after a tick and takes the lowest one that
    /// is requested and enabled, if the master enable is set. Returns the
    /// clock cycles that this cost.
    pub fn service_interrupts(&mut self) -> (cycles: u32)
        requires
            old(self).wf(),
        ensures
            final(self).wf(),
            final(self)@ == old(self)@.after_interrupts(),
            cycles == old(self)@.interrupt_cycles(),
    {
        let requested: u8 = self.interrupt_flag();
        let requests: u8 = self.ie() & requested;
        if requests == 0 {
            return 0;
        }
        self.is_halted = false;
        if !self.ime {
            return 0;
        }
        let index: u8 = if requests & 0x01 != 0 {
            0
        } else if requests & 0x02 != 0 {
            1
        } else if requests & 0x04 != 0 {
            2
        } else if requests & 0x08 != 0 {
            3
        } else if requests & 0x10 != 0 {
            4
        } else {
            return 0;
        };
        self.ime = false;
        self.memory_bus.write_byte(IF, requested & !(1u8 << index));
        self.sp = step_back(self.sp, 2);
        self.memory_bus.write_word(self.sp, self.pc);
        self.pc = 0x40 + 8 * (index as u16);
        4 * INTERRUPT_DISPATCH_CYCLES
    }
}

} // verus!
