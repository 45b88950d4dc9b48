//! The cycle counter and the constants of the frame.
use vstd::prelude::*;

verus! {

/// The clock frequency of the machine in cycles per second.
pub const DEFAULT_TIMER_FREQUENCY: u64 = 4_194_304;

/// The number of clock cycles in one video frame.
pub const CYCLES_PER_FRAME: u32 = 70224;

/// The length of one video frame in microseconds.
pub const FRAME_DURATION_MICROS: u64 = 16742;

/// Counts the clock cycles that the processor has run.
#[derive(Debug, Clone, Copy, PartialEq, Eq, Structural)]
pub struct Timer {
    /// The clock frequency in cycles per second.
    pub frequency: u64,
    /// The clock cycles counted so far.
    pub cycles_counter: u64,
}

impl Timer {
    /// A timer at the machine's clock frequency that has counted nothing.
    pub fn new() -> (timer: Timer)
        ensures
            timer.frequency == DEFAULT_TIMER_FREQUENCY,
            timer.cycles_counter == 0,
    {
        Timer { frequency: DEFAULT_TIMER_FREQUENCY, cycles_counter: 0 }
    }

    /// Clears the count and keeps the frequency.
    pub fn reset(&mut self)
        ensures
            final(self).cycles_counter == 0,
            final(self).frequency == old(self).frequency,
    {
        self.cycles_counter = 0;
    }

    pub fn get_frequency(&self) -> (frequency: u64)
        ensures
            frequency == self.frequency,
    {
        self.frequency
    }

    pub fn get_cycles_counter(&self) -> (cycles: u64)
        ensures
            cycles == self.cycles_counter,
    {
        self.cycles_counter
    }

    pub fn set_frequency(&mut self, frequency: u64)
        ensures
            final(self).frequency == frequency,
            final(self).cycles_counter == old(self).cycles_counter,
    {
        self.frequency = frequency;
    }

    /// Counts `cycles` machine cycles, each worth four clock cycles.
    pub fn update_cycles(&mut self, cycles: u64)
        requires
            old(self).cycles_counter + cycles * 4 <= u64::MAX,
        ensures
            final(self).cycles_counter == old(self).cycles_counter + cycles * 4,
            final(self).frequency == old(self).frequency,
    {
        self.cycles_counter = self.cycles_counter + cycles * 4;
    }
}

/// How long the scheduler sleeps after a frame that took `elapsed_micros`:
/// the rest of the frame, or nothing when the frame overran.
pub fn frame_sleep_micros(elapsed_micros: u64) -> (sleep: Option<u64>)
    ensures
        sleep == if elapsed_micros <= FRAME_DURATION_MICROS {
            Some((FRAME_DURATION_MICROS - elapsed_micros) as u64)
        } else {
            None
        },
{
    if elapsed_micros <= FRAME_DURATION_MICROS {
        Some(FRAME_DURATION_MICROS - elapsed_micros)
    } else {
        None
    }
}

} // verus!
