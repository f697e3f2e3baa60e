//! The timer: a free-running divider that counts TIMA up at one of four
//! rates and raises the Timer interrupt when TIMA overflows.

use vstd::prelude::*;
use crate::gameboy::{Gameboy, IO_TIMA, IO_TMA, IO_TAC, INT_TIMER, TAC_CLOCK_SELECT, TAC_ENABLE};
use crate::ppu::{raised, raise_interrupt};

verus! {

/// Nanoseconds between two pulses of the 4096 Hz clock.
pub const CLOCK_4096_HZ_PULSE_NANOS: u64 = 1_000_000_000 / 4096;
/// Nanoseconds between two pulses of the 262144 Hz clock.
pub const CLOCK_262_144_HZ_PULSE_NANOS: u64 = 1_000_000_000 / 262_144;
/// Nanoseconds between two pulses of the 65536 Hz clock.
pub const CLOCK_65_536_HZ_PULSE_NANOS: u64 = 1_000_000_000 / 65_536;
/// Nanoseconds between two pulses of the 16384 Hz clock.
pub const CLOCK_16_384_HZ_PULSE_NANOS: u64 = 1_000_000_000 / 16_384;

/// The timer engine. All that it works on is the machine's.
pub struct Timer {}

/// Whether the timer rests: TAC's enable bit is clear and the timer has
/// not been enabled since the machine was made.
pub open spec fn timer_rests(gb: Gameboy) -> bool {
    gb.io_ports.io_ports[IO_TAC as int] & TAC_ENABLE == 0 && !gb.timer_enabled
}

/// The time between two pulses that TAC's clock select asks for.
pub open spec fn pulse_nanos(tac: u8) -> u64 {
    let select = tac & TAC_CLOCK_SELECT;
    if select == 0 {
        CLOCK_4096_HZ_PULSE_NANOS
    } else if select == 1 {
        CLOCK_262_144_HZ_PULSE_NANOS
    } else if select == 2 {
        CLOCK_65_536_HZ_PULSE_NANOS
    } else {
        CLOCK_16_384_HZ_PULSE_NANOS
    }
}

/// Whether a pulse makes TIMA overflow.
pub open spec fn pulse_overflows(gb: Gameboy) -> bool {
    gb.io_ports.io_ports[IO_TIMA as int] == 0xff
}

/// The machine after a pulse: TIMA has counted up by one; where it
/// overflowed it holds TMA and the Timer interrupt is raised. Whether the
/// interrupt is served is the CPU's to decide.
pub open spec fn after_pulse(gb: Gameboy) -> Gameboy {
    let counted = Gameboy {
        io_ports: gb.io_ports.with(
            IO_TIMA,
            if pulse_overflows(gb) {
                gb.io_ports.io_ports[IO_TMA as int]
            } else {
                (gb.io_ports.io_ports[IO_TIMA as int] + 1) as u8
            },
        ),
        ..gb
    };
    if pulse_overflows(gb) {
        raised(counted, INT_TIMER)
    } else {
        counted
    }
}

impl Timer {
    /// A timer engine.
    pub fn new() -> (timer: Self) {
        Self {  }
    }

    /// Whether the timer has to wait for the signal that enables it.
    pub fn rests(&self, gb: &Gameboy) -> (resting: bool)
        ensures
            resting == timer_rests(*gb),
    {
        gb.io_ports.read(IO_TAC) & TAC_ENABLE == 0 && !gb.timer_enabled
    }

    /// The time to wait before the next pulse.
    pub fn delay_nanos(&self, gb: &Gameboy) -> (delay: u64)
        ensures
            delay == pulse_nanos(gb.io_ports.io_ports[IO_TAC as int]),
    {
        let select = gb.io_ports.read(IO_TAC) & TAC_CLOCK_SELECT;
        if select == 0 {
            CLOCK_4096_HZ_PULSE_NANOS
        } else if select == 1 {
            CLOCK_262_144_HZ_PULSE_NANOS
        } else if select == 2 {
            CLOCK_65_536_HZ_PULSE_NANOS
        } else {
            CLOCK_16_384_HZ_PULSE_NANOS
        }
    }

    /// Counts one pulse, and says whether it raised the Timer interrupt.
    pub fn pulse(&self, gb: &mut Gameboy) -> (interrupted: bool)
        ensures
            *final(gb) == after_pulse(*old(gb)),
            interrupted == pulse_overflows(*old(gb)),
    {
        let tima = gb.io_ports.read(IO_TIMA);
        let timer_overflow = tima == 0xff;
        let next = if timer_overflow { gb.io_ports.read(IO_TMA) } else { tima + 1 };
        gb.io_ports.write(IO_TIMA, next);

        if timer_overflow {
            raise_interrupt(gb, INT_TIMER);
            true
        } else {
            false
        }
    }
}

} // verus!
