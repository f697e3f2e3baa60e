//! What the CPU engine decides around each instruction: whether it may
//! run, which interrupt it serves, whether the debugger takes over, and
//! how long it then waits.

use vstd::prelude::*;
use crate::fault::{Fault, Partial};
use crate::gameboy::{Gameboy, IO_IF, IO_IE, INT_VBLANK, INT_LCDC, INT_TIMER, INT_SERIAL, INT_HILO};
use crate::cpu::exec::{push_pc, after_push_pc};

verus! {

/// The interrupts that are both raised and enabled: IF masked by IE.
pub open spec fn pending_interrupts(gb: Gameboy) -> u8 {
    gb.io_ports.io_ports[IO_IF as int] & gb.io_ports.io_ports[IO_IE as int]
}

/// The interrupt that is served first among those pending, and its fixed
/// vector: VBlank, then LCDC, then Timer, then Serial, then Joypad.
pub open spec fn first_interrupt(pending: u8) -> Option<(u8, u16)> {
    if pending & INT_VBLANK != 0 {
        Some((INT_VBLANK, 0x0040u16))
    } else if pending & INT_LCDC != 0 {
        Some((INT_LCDC, 0x0048u16))
    } else if pending & INT_TIMER != 0 {
        Some((INT_TIMER, 0x0050u16))
    } else if pending & INT_SERIAL != 0 {
        Some((INT_SERIAL, 0x0058u16))
    } else if pending & INT_HILO != 0 {
        Some((INT_HILO, 0x0060u16))
    } else {
        None
    }
}

/// Picks the interrupt to serve among those pending.
pub fn pick_interrupt(pending: u8) -> (r: Option<(u8, u16)>)
    ensures
        r == first_interrupt(pending),
{
    if pending & INT_VBLANK != 0 {
        Some((INT_VBLANK, 0x0040))
    } else if pending & INT_LCDC != 0 {
        Some((INT_LCDC, 0x0048))
    } else if pending & INT_TIMER != 0 {
        Some((INT_TIMER, 0x0050))
    } else if pending & INT_SERIAL != 0 {
        Some((INT_SERIAL, 0x0058))
    } else if pending & INT_HILO != 0 {
        Some((INT_HILO, 0x0060))
    } else {
        None
    }
}

/// The interrupt that the machine serves now, if any: the first of those
/// pending, while the interrupt gate is open.
pub open spec fn interrupt_to_serve(gb: Gameboy) -> Option<(u8, u16)> {
    if gb.ime {
        first_interrupt(pending_interrupts(gb))
    } else {
        None
    }
}

/// The machine after it has looked for an interrupt. Where one is served,
/// the program counter is pushed, execution continues at the interrupt's
/// vector, its bit alone is cleared in IF, the interrupt gate closes and
/// the interrupt latch is reset.
pub open spec fn after_interrupt(gb: Gameboy) -> Partial<Gameboy> {
    match interrupt_to_serve(gb) {
        None => Ok(gb),
        Some((bit, vector)) => match after_push_pc(gb) {
            Err(stopped) => Err(stopped),
            Ok(g) => Ok(
                Gameboy {
                    pc: vector,
                    io_ports: g.io_ports.with(IO_IF, g.io_ports.io_ports[IO_IF as int] & !bit),
                    ime: false,
                    interrupt_received: false,
                    ..g
                },
            ),
        },
    }
}

/// Serves at most one interrupt, and says which.
pub fn service_interrupt(gb: &mut Gameboy) -> (r: Result<Option<u8>, Fault>)
    ensures
        match after_interrupt(*old(gb)) {
            Ok(g) => *final(gb) == g && r == Ok::<Option<u8>, Fault>(
                match interrupt_to_serve(*old(gb)) {
                    Some((bit, _)) => Some(bit),
                    None => None,
                },
            ),
            Err((e, g)) => *final(gb) == g && r == Err::<Option<u8>, Fault>(e),
        },
{
    if !gb.ime {
        return Ok(None);
    }
    let pending = gb.io_ports.read(IO_IF) & gb.io_ports.read(IO_IE);
    match pick_interrupt(pending) {
        None => Ok(None),
        Some((bit, vector)) => {
            push_pc(gb)?;
            gb.pc = vector;
            gb.io_ports.and(IO_IF, !bit);
            gb.ime = false;
            gb.interrupt_received = false;
            Ok(Some(bit))
        },
    }
}

/// Whether the CPU may run: it is not halted, or an interrupt has been
/// signalled since it halted.
pub open spec fn can_run(gb: Gameboy) -> bool {
    !gb.halted || gb.interrupt_received
}

/// Lets a halted CPU go on once an interrupt has been signalled, and says
/// whether the CPU may run. Waking consumes the signal.
pub fn wake(gb: &mut Gameboy) -> (running: bool)
    ensures
        running == can_run(*old(gb)),
        *final(gb) == (if old(gb).halted && old(gb).interrupt_received {
            Gameboy { halted: false, interrupt_received: false, ..*old(gb) }
        } else {
            *old(gb)
        }),
{
    if gb.halted {
        if gb.interrupt_received {
            gb.interrupt_received = false;
            gb.halted = false;
            true
        } else {
            false
        }
    } else {
        true
    }
}

/// Whether a list of breakpoints holds an address.
pub fn has_breakpoint(breakpoints: &Vec<u16>, addr: u16) -> (found: bool)
    ensures
        found == breakpoints@.contains(addr),
{
    let mut i: usize = 0;
    while i < breakpoints.len()
        invariant
            i <= breakpoints@.len(),
            forall|j: int| 0 <= j < i ==> breakpoints@[j] != addr,
        decreases breakpoints@.len() - i,
    {
        if breakpoints[i] == addr {
            return true;
        }
        i += 1;
    }
    false
}

/// Whether execution stops for the debugger at the program counter: at a
/// breakpoint, or where a stepped-over call returns to.
pub open spec fn at_breakpoint(gb: Gameboy) -> bool {
    gb.debug.breakpoints@.contains(gb.pc) || gb.pc == gb.debug.over_ret_addr
}

/// Engages step mode where execution has reached a breakpoint, and says
/// whether step mode is engaged.
pub fn check_breakpoint(gb: &mut Gameboy) -> (stepping: bool)
    ensures
        stepping == (old(gb).debug.step_mode || at_breakpoint(*old(gb))),
        final(gb).debug.step_mode == stepping,
        final(gb).debug.breakpoints == old(gb).debug.breakpoints,
        final(gb).debug.over_ret_addr == old(gb).debug.over_ret_addr,
        final(gb).debug.stack_base == old(gb).debug.stack_base,
        (Gameboy { debug: old(gb).debug, ..*final(gb) }) == *old(gb),
{
    if has_breakpoint(&gb.debug.breakpoints, gb.pc) || gb.pc == gb.debug.over_ret_addr {
        gb.debug.step_mode = true;
    }
    gb.debug.step_mode
}

/// What the engine does next.
#[derive(Debug, Clone, Copy, PartialEq, Eq)]
pub enum Readiness {
    /// The CPU is halted and waits for an interrupt.
    Halted,
    /// The debugger takes over before the next instruction.
    Prompt,
    /// The next instruction runs.
    Run,
}

/// The machine once the engine has got ready for the next instruction,
/// and what the engine does next. A halted CPU that no interrupt has
/// woken stays as it is. Else the CPU wakes, serves at most one
/// interrupt, and engages step mode at a breakpoint.
pub open spec fn after_prepare(gb: Gameboy) -> Result<(Gameboy, Readiness), (Fault, Gameboy)> {
    if !can_run(gb) {
        Ok((gb, Readiness::Halted))
    } else {
        let woken = if gb.halted {
            Gameboy { halted: false, interrupt_received: false, ..gb }
        } else {
            gb
        };
        match after_interrupt(woken) {
            Err(stopped) => Err(stopped),
            Ok(g) => {
                let stepping = g.debug.step_mode || at_breakpoint(g);
                Ok(
                    (
                        Gameboy { debug: crate::gameboy::Debug { step_mode: stepping, ..g.debug }, ..g },
                        if stepping {
                            Readiness::Prompt
                        } else {
                            Readiness::Run
                        },
                    ),
                )
            },
        }
    }
}

/// Gets the engine ready for the next instruction: wakes a halted CPU if
/// an interrupt was signalled, serves at most one interrupt, and looks for
/// a breakpoint.
pub fn prepare(gb: &mut Gameboy) -> (r: Result<Readiness, Fault>)
    ensures
        match after_prepare(*old(gb)) {
            Ok((g, readiness)) => r == Ok::<Readiness, Fault>(readiness) && *final(gb) == g,
            Err((e, g)) => r == Err::<Readiness, Fault>(e) && *final(gb) == g,
        },
{
    if !wake(gb) {
        return Ok(Readiness::Halted);
    }
    service_interrupt(gb)?;
    if check_breakpoint(gb) {
        Ok(Readiness::Prompt)
    } else {
        Ok(Readiness::Run)
    }
}

/// Nanoseconds of wall time that one machine cycle stands for.
pub const CYCLE_NANOS: u64 = 1000;

/// How long the engine still has to wait after an iteration: what is left
/// of the time that the spent cycles stand for once the elapsed time is
/// taken off, and nothing where the iteration took longer.
pub open spec fn pacing_delay(cycles: u64, elapsed_nanos: u64) -> u64 {
    let expected = if cycles * CYCLE_NANOS > u64::MAX { u64::MAX as int } else { cycles * CYCLE_NANOS };
    if expected > elapsed_nanos {
        (expected - elapsed_nanos) as u64
    } else {
        0
    }
}

/// Computes the wait that paces an iteration against wall time.
pub fn pacing_nanos(cycles: u64, elapsed_nanos: u64) -> (delay: u64)
    ensures
        delay == pacing_delay(cycles, elapsed_nanos),
{
    let expected = match cycles.checked_mul(CYCLE_NANOS) {
        Some(e) => e,
        None => u64::MAX,
    };
    if expected > elapsed_nanos {
        expected - elapsed_nanos
    } else {
        0
    }
}

} // verus!
