//! The schedule of a frame: the phases that the picture generator goes
//! through, what each does on entry, how long it is held, and which phase
//! follows. The caller waits; the phases decide.

use vstd::prelude::*;
use crate::gameboy::{Gameboy, STAT_MODE_OAM, STAT_MODE_HBLANK};
use crate::ppu::{
    Ppu, begin_frame, enter_oam_search, oam_search, pixel_transfer, enter_hblank, end_line, enter_vblank,
    vblank_line, frame_begun, line_searched, line_transferred, after_enter_oam, oam_interrupt,
    after_enter_hblank, hblank_interrupt, after_end_line, after_enter_vblank, after_vblank_line, with_mode,
    OAM_TIME_NANOS, DRAW_TIME_NANOS, HBLANK_TIME_NANOS, LINE_TIME_NANOS, VISIBLE_LINES, VBLANK_LINES,
};

verus! {

/// A phase of a frame. The phases of a visible line carry the line's
/// number, those of the vertical blank the number of its lines that have
/// ended.
#[derive(Debug, Clone, Copy, PartialEq, Eq)]
pub enum Phase {
    /// The frame begins.
    FrameStart,
    /// Object memory is searched for the line's objects.
    OamSearch(u8),
    /// The line's pixels are transferred to the screen.
    PixelTransfer(u8),
    /// The line rests in its horizontal blank.
    HBlank(u8),
    /// The line ends: LY moves on.
    LineEnd(u8),
    /// The frame enters its vertical blank.
    VBlank,
    /// A line of the vertical blank ends.
    VBlankLine(u8),
}

/// How long a phase is held once its work is done.
#[derive(Debug, Clone, Copy, PartialEq, Eq)]
pub enum Hold {
    /// The next phase follows at once.
    Nothing,
    /// What is left of a budget of nanoseconds that began when the phase
    /// was entered.
    Remainder(u64),
    /// A span of nanoseconds from now on.
    Whole(u64),
}

/// What the caller learns from a phase.
#[derive(Debug, Clone, Copy, PartialEq, Eq)]
pub struct PhaseStep {
    /// The phase that follows.
    pub next: Phase,
    /// How long to wait before it.
    pub hold: Hold,
    /// Whether the phase raised an interrupt, so that a halted CPU is to
    /// be woken.
    pub interrupted: bool,
}

impl Phase {
    /// Whether the phase can be entered with a picture generator: a
    /// line's number is below 144, the window's line counter has not run
    /// ahead of the line, and fewer than ten lines of the vertical blank
    /// have ended.
    pub open spec fn fits(self, ppu: Ppu) -> bool {
        match self {
            Phase::FrameStart | Phase::VBlank => true,
            Phase::OamSearch(y) | Phase::PixelTransfer(y) => y < VISIBLE_LINES && ppu.curr_window_line <= y,
            Phase::HBlank(y) | Phase::LineEnd(y) => y < VISIBLE_LINES && ppu.curr_window_line <= y + 1,
            Phase::VBlankLine(k) => k < VBLANK_LINES,
        }
    }

    /// The phase that follows: the phases of a line in their order, the
    /// next line after a line's end, the vertical blank after the last
    /// line, and the next frame after the last line of the vertical
    /// blank.
    pub open spec fn following(self) -> Phase {
        match self {
            Phase::FrameStart => Phase::OamSearch(0),
            Phase::OamSearch(y) => Phase::PixelTransfer(y),
            Phase::PixelTransfer(y) => Phase::HBlank(y),
            Phase::HBlank(y) => Phase::LineEnd(y),
            Phase::LineEnd(y) => if y + 1 < VISIBLE_LINES {
                Phase::OamSearch((y + 1) as u8)
            } else {
                Phase::VBlank
            },
            Phase::VBlank => Phase::VBlankLine(0),
            Phase::VBlankLine(k) => if k + 1 < VBLANK_LINES {
                Phase::VBlankLine((k + 1) as u8)
            } else {
                Phase::FrameStart
            },
        }
    }

    /// How long the phase is held: the search and the transfer for what
    /// is left of their budgets, the horizontal blank for its span, and
    /// the vertical blank for a line's span before each of its lines
    /// ends.
    pub open spec fn held(self) -> Hold {
        match self {
            Phase::FrameStart | Phase::LineEnd(_) => Hold::Nothing,
            Phase::OamSearch(_) => Hold::Remainder(OAM_TIME_NANOS),
            Phase::PixelTransfer(_) => Hold::Remainder(DRAW_TIME_NANOS),
            Phase::HBlank(_) => Hold::Whole(HBLANK_TIME_NANOS),
            Phase::VBlank => Hold::Whole(LINE_TIME_NANOS),
            Phase::VBlankLine(k) => if k + 1 < VBLANK_LINES {
                Hold::Whole(LINE_TIME_NANOS)
            } else {
                Hold::Nothing
            },
        }
    }

    /// Whether the phase raises an interrupt on a machine.
    pub open spec fn interrupts(self, gb: Gameboy) -> bool {
        match self {
            Phase::OamSearch(_) => oam_interrupt(with_mode(gb, STAT_MODE_OAM)),
            Phase::HBlank(_) => hblank_interrupt(with_mode(gb, STAT_MODE_HBLANK)),
            Phase::VBlank => true,
            _ => false,
        }
    }

    /// Whether a picture generator and a machine are what the phase makes
    /// of them.
    pub open spec fn done(self, before: Ppu, gb: Gameboy, after: Ppu, run: Gameboy) -> bool {
        match self {
            Phase::FrameStart => frame_begun(before, gb, after, run),
            Phase::OamSearch(y) => run == after_enter_oam(gb) && line_searched(before, run, after, y),
            Phase::PixelTransfer(y) => line_transferred(before, gb, after, run, y),
            Phase::HBlank(_) => run == after_enter_hblank(gb) && after == before,
            Phase::LineEnd(_) => run == after_end_line(gb) && after == before,
            Phase::VBlank => run == after_enter_vblank(gb) && after == before,
            Phase::VBlankLine(_) => run == after_vblank_line(gb) && after == before,
        }
    }

    /// Tells whether the phase can be entered with a picture generator.
    pub fn is_ready(self, ppu: &Ppu) -> (ready: bool)
        ensures
            ready == self.fits(*ppu),
    {
        match self {
            Phase::FrameStart | Phase::VBlank => true,
            Phase::OamSearch(y) | Phase::PixelTransfer(y) => y < VISIBLE_LINES && ppu.curr_window_line <= y,
            Phase::HBlank(y) | Phase::LineEnd(y) => y < VISIBLE_LINES && ppu.curr_window_line <= y + 1,
            Phase::VBlankLine(k) => k < VBLANK_LINES,
        }
    }
}

/// Runs a phase on entry and says what follows: the phase to enter next,
/// how long to wait before it, and whether an interrupt was raised. A
/// frame that starts at `FrameStart` and follows the phases handed back
/// can always go on.
pub fn run_phase(ppu: &mut Ppu, gb: &mut Gameboy, phase: Phase) -> (step: PhaseStep)
    requires
        phase.fits(*old(ppu)),
    ensures
        phase.done(*old(ppu), *old(gb), *final(ppu), *final(gb)),
        step.next == phase.following(),
        step.hold == phase.held(),
        step.interrupted == phase.interrupts(*old(gb)),
        step.next.fits(*final(ppu)),
{
    match phase {
        Phase::FrameStart => {
            begin_frame(ppu, gb);
            PhaseStep { next: Phase::OamSearch(0), hold: Hold::Nothing, interrupted: false }
        },
        Phase::OamSearch(y) => {
            let interrupted = enter_oam_search(gb);
            oam_search(ppu, gb, y);
            PhaseStep { next: Phase::PixelTransfer(y), hold: Hold::Remainder(OAM_TIME_NANOS), interrupted }
        },
        Phase::PixelTransfer(y) => {
            pixel_transfer(ppu, gb, y);
            PhaseStep { next: Phase::HBlank(y), hold: Hold::Remainder(DRAW_TIME_NANOS), interrupted: false }
        },
        Phase::HBlank(y) => {
            let interrupted = enter_hblank(gb);
            PhaseStep { next: Phase::LineEnd(y), hold: Hold::Whole(HBLANK_TIME_NANOS), interrupted }
        },
        Phase::LineEnd(y) => {
            end_line(gb);
            let next = if y + 1 < VISIBLE_LINES {
                Phase::OamSearch(y + 1)
            } else {
                Phase::VBlank
            };
            PhaseStep { next, hold: Hold::Nothing, interrupted: false }
        },
        Phase::VBlank => {
            enter_vblank(gb);
            PhaseStep { next: Phase::VBlankLine(0), hold: Hold::Whole(LINE_TIME_NANOS), interrupted: true }
        },
        Phase::VBlankLine(k) => {
            vblank_line(gb);
            if k + 1 < VBLANK_LINES {
                PhaseStep { next: Phase::VBlankLine(k + 1), hold: Hold::Whole(LINE_TIME_NANOS), interrupted: false }
            } else {
                PhaseStep { next: Phase::FrameStart, hold: Hold::Nothing, interrupted: false }
            }
        },
    }
}

/// The phase that is reached from a phase by following the schedule a
/// number of times.
pub open spec fn phase_after(phase: Phase, steps: nat) -> Phase
    decreases steps,
{
    if steps == 0 {
        phase
    } else {
        phase_after(phase, (steps - 1) as nat).following()
    }
}

/// A visible line runs through its four phases in their order and is
/// followed by the next line, the last line by the vertical blank; the
/// holds of a line's phases add up to the budgets of the search, the
/// transfer and the horizontal blank.
pub proof fn law_line_runs_its_phases(y: u8)
    requires
        y < VISIBLE_LINES,
    ensures
        phase_after(Phase::OamSearch(y), 1) == Phase::PixelTransfer(y),
        phase_after(Phase::OamSearch(y), 2) == Phase::HBlank(y),
        phase_after(Phase::OamSearch(y), 3) == Phase::LineEnd(y),
        phase_after(Phase::OamSearch(y), 4) == (if y + 1 < VISIBLE_LINES {
            Phase::OamSearch((y + 1) as u8)
        } else {
            Phase::VBlank
        }),
        Phase::OamSearch(y).held() == Hold::Remainder(OAM_TIME_NANOS),
        Phase::PixelTransfer(y).held() == Hold::Remainder(DRAW_TIME_NANOS),
        Phase::HBlank(y).held() == Hold::Whole(HBLANK_TIME_NANOS),
        Phase::LineEnd(y).held() == Hold::Nothing,
{
    reveal_with_fuel(phase_after, 5);
}

/// The vertical blank holds for a line's span before each of its ten lines
/// ends, and the next frame follows its last line at once.
pub proof fn law_vertical_blank_runs_ten_lines(k: u8)
    requires
        k < VBLANK_LINES,
    ensures
        Phase::VBlank.following() == Phase::VBlankLine(0),
        Phase::VBlank.held() == Hold::Whole(LINE_TIME_NANOS),
        phase_after(Phase::VBlank, (k + 1) as nat) == Phase::VBlankLine(k),
        phase_after(Phase::VBlank, 11) == Phase::FrameStart,
        phase_after(Phase::FrameStart, 1) == Phase::OamSearch(0),
        k + 1 < VBLANK_LINES ==> Phase::VBlankLine(k).held() == Hold::Whole(LINE_TIME_NANOS),
        k + 1 == VBLANK_LINES ==> Phase::VBlankLine(k).held() == Hold::Nothing,
{
    reveal_with_fuel(phase_after, 12);
}

} // verus!
