//! The machine as a whole, and the loop that runs it for one video frame.
use vstd::prelude::*;
use crate::cartridge::interface::CartridgeState;
use crate::cartridge::{load_cartridge, load_cartridge_from_file};
use crate::machine::cpu::{CpuState, CPU};
use crate::machine::memory::BusState;
use crate::machine::time::CYCLES_PER_FRAME;
use crate::machine::Error;

verus! {

/// The address at which a cartridge is entered once the machine has booted.
pub const ENTRY_POINT: u16 = 0x0100;

/// The clock cycles that are left of a frame of which `elapsed` have
/// passed.
pub open spec fn frame_rest(elapsed: nat) -> nat {
    if elapsed >= CYCLES_PER_FRAME {
        0
    } else {
        (CYCLES_PER_FRAME - elapsed) as nat
    }
}

impl CpuState {
    /// The state after one round of the frame loop: a tick, then a look at
    /// the interrupts.
    #[verifier::opaque]
    pub open spec fn after_round(self) -> CpuState {
        self.after_tick().after_interrupts()
    }

    /// The clock cycles by which one round of the frame loop advances the
    /// frame: those of the tick and of the interrupt dispatch, and one
    /// machine cycle when both took none, so that the frame goes on while
    /// the processor is halted.
    pub open spec fn round_cycles(self) -> nat {
        let spent = self.tick_cycles() + self.after_tick().interrupt_cycles();
        if spent <= 0 {
            4
        } else {
            spent as nat
        }
    }

    /// The state at the end of a frame of which `elapsed` clock cycles have
    /// passed: rounds follow each other until the frame is full or a byte
    /// names no operation.
    pub open spec fn after_frame(self, elapsed: nat) -> CpuState
        decreases frame_rest(elapsed),
    {
        if elapsed >= CYCLES_PER_FRAME || !self.can_tick() {
            self
        } else {
            self.after_round().after_frame(elapsed + self.round_cycles())
        }
    }

    /// The clock cycles that have passed at the end of the frame, or none
    /// if the frame ended on a byte that names no operation.
    pub open spec fn frame_cycles(self, elapsed: nat) -> Option<nat>
        decreases frame_rest(elapsed),
    {
        if elapsed >= CYCLES_PER_FRAME {
            Some(elapsed)
        } else if !self.can_tick() {
            None
        } else {
            self.after_round().frame_cycles(elapsed + self.round_cycles())
        }
    }
}

/// The machine: a processor with its bus and the cartridge on it.
pub struct GameBoyApp {
    cpu: CPU,
}

impl View for GameBoyApp {
    type V = CpuState;

    closed spec fn view(&self) -> CpuState {
        self.cpu@
    }
}

impl GameBoyApp {
    /// The invariant of the machine: that of its processor.
    pub closed spec fn wf(&self) -> bool {
        self.cpu.wf()
    }

    /// The state of a machine that was switched on with a cartridge.
    pub open spec fn switched_on(cartridge: CartridgeState, state: CpuState) -> bool {
        state == (CpuState {
            bus: BusState { cartridge: Some(cartridge), ..BusState::blank() },
            ..CpuState::power_on(state.timer)
        })
    }

    /// Switches the machine on with the cartridge that the contents of a
    /// ROM file describe. The processor is in its power-on state.
    pub fn new(contents: Vec<u8>) -> (app: Result<Self, Error>)
        ensures
            match app {
                Ok(a) => a.wf() && load_cartridge(contents@) is Ok && Self::switched_on(
                    load_cartridge(contents@)->Ok_0,
                    a@,
                ),
                Err(e) => load_cartridge(contents@) == Err::<CartridgeState, Error>(e),
            },
    {
        let mut cpu = CPU::new();
        match load_cartridge_from_file(contents) {
            Ok(cartridge) => {
                cpu.memory_bus.load_cartridge(cartridge);
                Ok(GameBoyApp { cpu })
            },
            Err(e) => Err(e),
        }
    }

    /// Resets the machine, loads another cartridge and boots it. When the
    /// contents describe no cartridge, the machine is left reset and
    /// without a cartridge.
    pub fn load_new_cartridge(&mut self, contents: Vec<u8>) -> (done: Result<(), Error>)
        ensures
            final(self).wf(),
            match done {
                Ok(_) => load_cartridge(contents@) is Ok && Self::switched_on(
                    load_cartridge(contents@)->Ok_0,
                    CpuState { pc: 0, ..final(self)@ },
                ) && final(self)@.pc == ENTRY_POINT,
                Err(e) => load_cartridge(contents@) == Err::<CartridgeState, Error>(e)
                    && final(self)@ == CpuState::power_on(final(self)@.timer),
            },
    {
        self.cpu.reset();
        match load_cartridge_from_file(contents) {
            Ok(cartridge) => {
                self.cpu.memory_bus.load_cartridge(cartridge);
                self.boot();
                Ok(())
            },
            Err(e) => Err(e),
        }
    }

    /// Enters the cartridge: the program counter goes to 0x0100.
    pub fn boot(&mut self)
        requires
            old(self).wf(),
        ensures
            final(self).wf(),
            final(self)@ == (CpuState { pc: ENTRY_POINT, ..old(self)@ }),
    {
        self.cpu.pc = ENTRY_POINT;
    }

    /// The processor of the machine.
    pub fn cpu(&self) -> (cpu: &CPU)
        requires
            self.wf(),
        ensures
            cpu.wf(),
            cpu@ == self@,
    {
        &self.cpu
    }

    /// Runs the processor for one video frame: ticks, each followed by a
    /// look at the interrupts, until 70224 clock cycles have passed.
    /// Returns the clock cycles that passed, or the error of a byte that
    /// names no operation, before which the frame stops.
    pub fn run_frame(&mut self) -> (cycles: Result<u32, Error>)
        requires
            old(self).wf(),
        ensures
            final(self).wf(),
            final(self)@ == old(self)@.after_frame(0),
            match cycles {
                Ok(passed) => passed >= CYCLES_PER_FRAME && old(self)@.frame_cycles(0) == Some(
                    passed as nat,
                ),
                Err(e) => e == Error::OPCodeParseError && old(self)@.frame_cycles(0) is None,
            },
    {
        let mut cycles_this_frame: u32 = 0;
        while cycles_this_frame < CYCLES_PER_FRAME
            invariant
                self.wf(),
                cycles_this_frame <= CYCLES_PER_FRAME + 2000,
                self@.after_frame(cycles_this_frame as nat) == old(self)@.after_frame(0),
                self@.frame_cycles(cycles_this_frame as nat) == old(self)@.frame_cycles(0),
            decreases CYCLES_PER_FRAME + 2000 - cycles_this_frame,
        {
            proof {
                reveal(CpuState::after_round);
            }
            let cycles_executed: u32 = match self.cpu.step() {
                Ok(cycles) => cycles,
                Err(e) => {
                    return Err(e);
                },
            };
            let dispatch: u32 = self.cpu.service_interrupts();
            let spent: u32 = cycles_executed + dispatch;
            cycles_this_frame = cycles_this_frame + if spent == 0 {
                4
            } else {
                spent
            };
        }
        Ok(cycles_this_frame)
    }
}

} // verus!
