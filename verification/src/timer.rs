//! The divider and the programmable timer (DIV, TIMA, TMA, TAC).

use vstd::prelude::*;

verus! {

pub struct Timer {
    pub div: u16,
    pub tima: u8,
    pub tma: u8,
    pub tac: u8,
    /// Machine cycles counted since the last scanline.
    pub cycles_counter: u32,
    pub div_counter: u32,
    pub tima_counter: u32,
    /// Set to 1 when TIMA overflows; cleared when the interrupt is served.
    pub timer_interrupt: u8,
}

/// Cycles per TIMA increment for the clock select bits of TAC.
pub open spec fn tima_rate(tac: u8) -> u32 {
    if tac % 4 == 0 {
        1024
    } else if tac % 4 == 1 {
        16
    } else if tac % 4 == 2 {
        64
    } else {
        256
    }
}

/// Whether bit 2 of TAC (timer enable) is set.
pub open spec fn timer_enabled(tac: u8) -> bool {
    (tac / 4) % 2 == 1
}

proof fn lemma_tac_bits(tac: u8)
    by (bit_vector)
    ensures
        ((tac >> 2) & 1 != 0) == ((tac / 4) % 2 == 1),
        (tac >> 2) & 1 <= 1,
        tac & 3 == tac % 4,
{
}

impl Timer {
    pub open spec fn div_spec(&self) -> u16 {
        self.div
    }

    pub open spec fn tima_spec(&self) -> u8 {
        self.tima
    }

    pub open spec fn tma_spec(&self) -> u8 {
        self.tma
    }

    pub open spec fn tac_spec(&self) -> u8 {
        self.tac
    }

    /// A tick of `cycles` overflows none of the cycle counters.
    pub open spec fn can_tick(&self, cycles: u32) -> bool {
        &&& self.cycles_counter + cycles <= u32::MAX
        &&& self.tima_counter + cycles <= u32::MAX
        &&& self.div_counter + cycles <= u32::MAX
    }

    /// The TIMA part of a tick: when the timer is enabled, the TIMA counter
    /// advances, and once it reaches the rate of TAC one period is taken off;
    /// TIMA is then reloaded from TMA if it holds 0xFF (raising the timer
    /// interrupt) and is otherwise left as it is.
    pub open spec fn tima_step(self, cycles: u32) -> Timer {
        if timer_enabled(self.tac) {
            let tc = self.tima_counter + cycles;
            let rate = tima_rate(self.tac);
            if tc >= rate {
                if self.tima == 0xFF {
                    Timer { tima: self.tma, timer_interrupt: 1, tima_counter: (tc - rate) as u32, ..self }
                } else {
                    Timer { tima_counter: (tc - rate) as u32, ..self }
                }
            } else {
                Timer { tima_counter: tc as u32, ..self }
            }
        } else {
            self
        }
    }

    /// The divider part of a tick: DIV goes up by one (wrapping) every 256 cycles.
    pub open spec fn div_step(self, cycles: u32) -> Timer {
        let dc = self.div_counter + cycles;
        if dc >= 256 {
            Timer { div: ((self.div + 1) % 0x10000) as u16, div_counter: (dc - 256) as u32, ..self }
        } else {
            Timer { div_counter: dc as u32, ..self }
        }
    }

    /// The timer after `cycles` machine cycles.
    #[verifier::opaque]
    pub open spec fn tick_spec(self, cycles: u32) -> Timer {
        Timer {
            cycles_counter: (self.cycles_counter + cycles) as u32,
            ..self
        }.tima_step(cycles).div_step(cycles)
    }

    /// The timer at power-on: every register and counter 0.
    pub open spec fn initial() -> Timer {
        Timer {
            div: 0,
            tima: 0,
            tma: 0,
            tac: 0,
            cycles_counter: 0,
            div_counter: 0,
            tima_counter: 0,
            timer_interrupt: 0,
        }
    }

    pub fn new() -> (t: Timer)
        ensures
            t == Timer::initial(),
            t == (Timer {
                div: 0,
                tima: 0,
                tma: 0,
                tac: 0,
                cycles_counter: 0,
                div_counter: 0,
                tima_counter: 0,
                timer_interrupt: 0,
            }),
    {
        Timer {
            div: 0,
            tima: 0,
            tma: 0,
            tac: 0,
            cycles_counter: 0,
            div_counter: 0,
            tima_counter: 0,
            timer_interrupt: 0,
        }
    }

    pub fn timer_tick(&mut self, cycles: u32)
        requires
            old(self).can_tick(cycles),
        ensures
            *final(self) == old(self).tick_spec(cycles),
    {
        reveal(Timer::tick_spec);
        proof {
            lemma_tac_bits(self.tac);
        }
        self.cycles_counter = self.cycles_counter + cycles;
        if (self.tac >> 2) & 1 != 0 {
            self.tima_counter = self.tima_counter + cycles;
            let inc_rate: u32 = match self.tac & 0x03 {
                0 => 1024,  // 4096 Hz
                1 => 16,  // 262144 Hz
                2 => 64,  // 65536 Hz
                _ => 256,  // 16384 Hz
            };
            if self.tima_counter >= inc_rate {
                if self.tima == 0xFF {
                    self.tima = self.tma;
                    self.timer_interrupt = 1;
                }
                self.tima_counter = self.tima_counter - inc_rate;
            }
        }
        self.div_counter = self.div_counter + cycles;
        if self.div_counter >= 256 {
            self.div = self.div.wrapping_add(1);
            self.div_counter = self.div_counter - 256;
        }
    }

    /// Reads DIV (its low byte), TIMA, TMA or TAC.
    pub fn timer_read(&self, address: u16) -> (r: u8)
        requires
            0xFF04 <= address <= 0xFF07,
        ensures
            address == 0xFF04 ==> r == self.div % 256,
            address == 0xFF05 ==> r == self.tima,
            address == 0xFF06 ==> r == self.tma,
            address == 0xFF07 ==> r == self.tac,
    {
        match address {
            0xFF04 => (self.div % 256) as u8,
            0xFF05 => self.tima,
            0xFF06 => self.tma,
            _ => self.tac,
        }
    }

    /// The timer after a write to one of its registers; any write to DIV
    /// resets it.
    pub open spec fn write_spec(self, address: u16, val: u8) -> Timer {
        if address == 0xFF04 {
            Timer { div: 0, ..self }
        } else if address == 0xFF05 {
            Timer { tima: val, ..self }
        } else if address == 0xFF06 {
            Timer { tma: val, ..self }
        } else {
            Timer { tac: val, ..self }
        }
    }

    pub fn timer_write(&mut self, address: u16, val: u8)
        requires
            0xFF04 <= address <= 0xFF07,
        ensures
            *final(self) == old(self).write_spec(address, val),
    {
        match address {
            0xFF04 => self.div = 0,
            0xFF05 => self.tima = val,
            0xFF06 => self.tma = val,
            _ => self.tac = val,
        }
    }
}

/// A tick leaves room for the rest of a larger tick: the counters grow by
/// at most the cycles run.
pub proof fn lemma_tick_room(t: Timer, a: u32, b: u32)
    requires
        t.can_tick((a + b) as u32),
        a + b <= u32::MAX,
    ensures
        t.tick_spec(a).can_tick(b),
        t.tick_spec(a).cycles_counter == t.cycles_counter + a,
{
    reveal(Timer::tick_spec);
}

/// The divider's cycle counter stays below 256 under ticks of at most 256
/// cycles, so that DIV advances by one at most per tick.
pub proof fn lemma_div_counter_bounded(t: Timer, cycles: u32)
    requires
        t.div_counter < 256,
        cycles <= 256,
        t.can_tick(cycles),
    ensures
        t.tick_spec(cycles).div_counter < 256,
        t.tick_spec(cycles).div == t.div || t.tick_spec(cycles).div == (t.div + 1) % 0x10000,
{
    reveal(Timer::tick_spec);
}

/// TIMA overflows at the period that TAC bits 1-0 select: 1024 cycles for
/// 00, 16 for 01, 64 for 10, 256 for 11. With the timer on (TAC bit 2) and
/// TIMA at 0xFF, a tick that brings the TIMA counter to the period reloads
/// TIMA from TMA and raises the timer interrupt; one that falls short only
/// counts. With the timer off, TIMA, its counter and the request stay.
pub proof fn lemma_tima_overflow(t: Timer, cycles: u32)
    requires
        t.can_tick(cycles),
    ensures
        ({
            let n = t.tick_spec(cycles);
            let period: int = if t.tac & 3 == 0 {
                1024
            } else if t.tac & 3 == 1 {
                16
            } else if t.tac & 3 == 2 {
                64
            } else {
                256
            };
            let on = (t.tac >> 2) & 1 == 1;
            &&& (on && t.tima == 0xFF && t.tima_counter + cycles >= period) ==> n.tima == t.tma
                && n.timer_interrupt == 1 && n.tima_counter == t.tima_counter + cycles - period
            &&& (on && t.tima_counter + cycles < period) ==> n.tima == t.tima && n.timer_interrupt
                == t.timer_interrupt && n.tima_counter == t.tima_counter + cycles
            &&& !on ==> n.tima == t.tima && n.timer_interrupt == t.timer_interrupt && n.tima_counter
                == t.tima_counter
        }),
{
    reveal(Timer::tick_spec);
    lemma_tac_bits(t.tac);
}

} // verus!
