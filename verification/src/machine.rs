//! One pass of the emulation loop: joypad input is taken in, interrupts are
//! handled, one instruction runs, and once a scanline's worth of cycles has
//! passed the PPU moves to the next line. The caller shows the frame and
//! feeds the input; this module decides.

use vstd::prelude::*;
use crate::cpu::{MemoryBus, CPU};
use crate::timer::Timer;

verus! {

/// Machine cycles of one scanline.
pub const CYCLES_PER_LINE: u32 = 456;

/// What one pass of the loop came to.
#[derive(Clone, Copy, Debug, PartialEq, Eq, Structural)]
pub enum CycleOutcome {
    /// The pass completed; `true` when LY was 144 at the end of the
    /// scanline, so that a frame is complete and is to be shown.
    Completed(bool),
    /// Interrupt handling cannot run: the timer has no room for its cycles
    /// or the return address cannot be pushed.
    InterruptsBlocked,
    /// The instruction at the program counter cannot be fetched, is not an
    /// opcode of the tables, or cannot run.
    StepBlocked,
    /// The scanline cannot be drawn: a sprite lookup falls outside its tile.
    LineBlocked,
}

impl CPU {
    /// The CPU with the input of the front end taken in: a new joypad
    /// register, and the joypad interrupt request.
    pub open spec fn with_input(self, joypad: Option<u8>, jpad_interrupt: Option<bool>) -> CPU {
        let s = match joypad {
            Some(b) => CPU { bus: MemoryBus { joypad: b, ..self.bus }, ..self },
            None => self,
        };
        match jpad_interrupt {
            Some(j) => CPU { jpad_interrupt: j, ..s },
            None => s,
        }
    }

    /// The CPU after the end of a scanline: the PPU moved to `ppu` and the
    /// cycle counter reduced modulo the cycles of a line.
    pub open spec fn line_ended(self, ppu: crate::ppu::PPU) -> CPU {
        CPU {
            bus: MemoryBus {
                ppu: ppu,
                timer: Timer {
                    cycles_counter: (self.bus.timer.cycles_counter % CYCLES_PER_LINE) as u32,
                    ..self.bus.timer
                },
                ..self.bus
            },
            ..self
        }
    }

    /// One pass of the emulation loop. A pass that is blocked stops where
    /// it is blocked: before interrupt handling, before the instruction,
    /// or part way through drawing the line.
    pub fn run_cycle(&mut self, joypad: Option<u8>, jpad_interrupt: Option<bool>) -> (r: CycleOutcome)
        ensures
            ({
                let s0 = old(self).with_input(joypad, jpad_interrupt);
                let s1 = s0.interrupts_spec();
                let s2 = s1.step_spec();
                &&& !s0.interrupts_ok() ==> r == CycleOutcome::InterruptsBlocked && *final(self) == s0
                &&& (s0.interrupts_ok() && !s1.step_ok()) ==> r == CycleOutcome::StepBlocked
                    && *final(self) == s1
                &&& (s0.interrupts_ok() && s1.step_ok() && s2.bus.timer.cycles_counter < CYCLES_PER_LINE)
                    ==> r == CycleOutcome::Completed(false) && *final(self) == s2
                &&& (s0.interrupts_ok() && s1.step_ok() && s2.bus.timer.cycles_counter >= CYCLES_PER_LINE
                    && !s2.bus.ppu.step_ok()) ==> r == CycleOutcome::LineBlocked
                &&& (s0.interrupts_ok() && s1.step_ok() && s2.bus.timer.cycles_counter >= CYCLES_PER_LINE
                    && s2.bus.ppu.step_ok()) ==> {
                    &&& r == CycleOutcome::Completed(s2.bus.ppu.ly == 144)
                    &&& s2.bus.ppu.steps_to(final(self).bus.ppu)
                    &&& *final(self) == s2.line_ended(final(self).bus.ppu)
                }
                &&& r is Completed ==> final(self).bus.timer.cycles_counter < CYCLES_PER_LINE
                &&& r == CycleOutcome::Completed(true) ==> final(self).bus.ppu.video_buffer
                    == s2.bus.ppu.video_buffer
            }),
    {
        if let Some(b) = joypad {
            self.bus.joypad = b;
        }
        if let Some(j) = jpad_interrupt {
            self.jpad_interrupt = j;
        }
        if !self.can_serve_interrupts() {
            return CycleOutcome::InterruptsBlocked;
        }
        let _ = self.interrupts();
        if !self.can_step() {
            return CycleOutcome::StepBlocked;
        }
        self.step();
        if self.bus.timer.cycles_counter >= CYCLES_PER_LINE {
            let frame = self.bus.ppu.ly == 144;
            if !self.bus.ppu.try_step() {
                return CycleOutcome::LineBlocked;
            }
            self.bus.timer.cycles_counter = self.bus.timer.cycles_counter % CYCLES_PER_LINE;
            return CycleOutcome::Completed(frame);
        }
        CycleOutcome::Completed(false)
    }
}

} // verus!
