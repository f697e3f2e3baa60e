//! The picture generator: for each visible line it searches object memory,
//! composes the line's pixels from background, window and objects, and
//! rests; after the last line it spends the vertical blank.

use vstd::prelude::*;
use crate::gameboy::{
    Gameboy, IoPorts, Rgb, IO_IF, IO_LCDC, IO_STAT, IO_SCX, IO_SCY, IO_LY, IO_LYC, IO_BGP,
    IO_OBP0, IO_OBP1, IO_WX, IO_WY, INT_VBLANK, INT_LCDC, LCDC_ON, LCDC_WIN_TILE_MAP, LCDC_WIN_DISP,
    LCDC_TILE_DATA, LCDC_BG_TILE_MAP, LCDC_OBJ_SIZE, LCDC_OBJ_DISP, LCDC_BG_DISP, STAT_INT_LYC,
    STAT_INT_M10, STAT_INT_M01, STAT_INT_M00, STAT_LYC_SET, STAT_MODE, STAT_MODE_HBLANK,
    STAT_MODE_VBLANK, STAT_MODE_OAM, STAT_MODE_TRANSFER,
};

verus! {

pub const PALETTE_GREY: [Rgb; 4] = [(255, 255, 255), (127, 127, 127), (63, 63, 63), (0, 0, 0)];
pub const PALETTE_RED: [Rgb; 4] = [(255, 0, 0), (127, 0, 0), (63, 0, 0), (0, 0, 0)];
pub const PALETTE_GREEN: [Rgb; 4] = [(0, 255, 0), (0, 127, 0), (0, 63, 0), (0, 0, 0)];
pub const PALETTE_BLUE: [Rgb; 4] = [(0, 0, 255), (0, 0, 127), (0, 0, 63), (0, 0, 0)];

/// Nanoseconds that the search of object memory holds a line.
pub const OAM_TIME_NANOS: u64 = 19_000;
/// Nanoseconds that the transfer of pixels holds a line.
pub const DRAW_TIME_NANOS: u64 = 41_000;
/// Nanoseconds that a line rests after its pixels.
pub const HBLANK_TIME_NANOS: u64 = 48_600;
/// Nanoseconds of one line of the vertical blank.
pub const LINE_TIME_NANOS: u64 = 108_718;
/// Nanoseconds that a frame is expected to take.
pub const FRAME_TIME_NANOS: u64 = 16_750_000;

/// Lines of a frame that are drawn.
pub const VISIBLE_LINES: u8 = 144;
/// Lines of a frame that the vertical blank spans.
pub const VBLANK_LINES: u8 = 10;

pub const OBJ_PRIORITY: u8 = 0b1000_0000;
pub const OBJ_Y_FLIP: u8 = 0b0100_0000;
pub const OBJ_X_FLIP: u8 = 0b0010_0000;
pub const OBJ_PALETTE: u8 = 0b0001_0000;

/// An entry of object memory: where the object is, which tile it shows,
/// and how.
#[derive(Debug, Copy, Clone, PartialEq, Eq)]
pub struct ObjAttr {
    pub y: u8,
    pub x: u8,
    pub tile_number: u8,
    pub flags: u8,
}

impl ObjAttr {
    /// The object that four bytes of object memory describe.
    pub fn new(bytes: &[u8]) -> (obj: Self)
        requires
            bytes@.len() >= 4,
        ensures
            obj == (ObjAttr { y: bytes@[0], x: bytes@[1], tile_number: bytes@[2], flags: bytes@[3] }),
    {
        Self { y: bytes[0], x: bytes[1], tile_number: bytes[2], flags: bytes[3] }
    }
}

/// The picture generator's own state: the colours it paints with, what it
/// latched at the start of the frame, how many lines of the window it has
/// drawn, and the objects of the line in hand.
pub struct Ppu {
    /// The four shades, lightest first.
    pub palette: [Rgb; 4],
    /// Whether the display was off when the frame began.
    pub lcd_is_off: bool,
    /// The window's top line, read once per frame.
    pub wy: u8,
    /// The line of the window that is drawn next. It advances only on
    /// lines that show the window.
    pub curr_window_line: u8,
    /// The LCDC register as it stood when object memory was searched for
    /// the line in hand.
    pub line_lcdc: u8,
    /// The objects of the line in hand as they stood when object memory
    /// was searched, each with its index in object memory, in the order in
    /// which they are painted.
    pub line_objects: Vec<(u8, ObjAttr)>,
}

impl Ppu {
    /// A picture generator for a machine, painting with a palette.
    pub fn new(gb: &Gameboy, palette: [Rgb; 4]) -> (ppu: Self)
        ensures
            ppu.palette == palette,
            !ppu.lcd_is_off,
            ppu.wy == 0,
            ppu.curr_window_line == 0,
            ppu.line_lcdc == gb.io_ports.io_ports[IO_LCDC as int],
            ppu.line_objects@ == Seq::<(u8, ObjAttr)>::empty(),
    {
        Self {
            palette: palette,
            lcd_is_off: false,
            wy: 0,
            curr_window_line: 0,
            line_lcdc: gb.io_ports.read(IO_LCDC),
            line_objects: Vec::new(),
        }
    }
}

/// The STAT register with its mode bits replaced.
pub open spec fn stat_with_mode(stat: u8, mode: u8) -> u8 {
    (stat & !STAT_MODE) | mode
}

/// The machine with the mode bits of STAT replaced.
pub open spec fn with_mode(gb: Gameboy, mode: u8) -> Gameboy {
    Gameboy { io_ports: gb.io_ports.with(IO_STAT, stat_with_mode(gb.io_ports.io_ports[IO_STAT as int], mode)), ..gb }
}

/// Sets the mode bits of STAT.
fn set_mode(gb: &mut Gameboy, mode: u8)
    ensures
        *final(gb) == with_mode(*old(gb), mode),
{
    let stat = gb.io_ports.read(IO_STAT);
    gb.io_ports.write(IO_STAT, (stat & !STAT_MODE) | mode);
}

/// The machine after interrupts are raised: their bits are set in IF and
/// the interrupt latch is set.
pub open spec fn raised(gb: Gameboy, interrupt: u8) -> Gameboy {
    Gameboy {
        io_ports: gb.io_ports.with(IO_IF, gb.io_ports.io_ports[IO_IF as int] | interrupt),
        interrupt_received: true,
        ..gb
    }
}

/// Raises an interrupt and signals the CPU.
pub fn raise_interrupt(gb: &mut Gameboy, interrupt: u8)
    ensures
        *final(gb) == raised(*old(gb), interrupt),
{
    gb.io_ports.or(IO_IF, interrupt);
    gb.interrupt_received = true;
}

/// Whether a register has any bit of a mask set.
pub open spec fn any_set(value: u8, mask: u8) -> bool {
    value & mask > 0
}

/// The frame's latches at the start of a frame: whether the display is
/// off and the window's top line.
pub open spec fn frame_latches(gb: Gameboy) -> (bool, u8) {
    (gb.io_ports.io_ports[IO_LCDC as int] & LCDC_ON == 0, gb.io_ports.io_ports[IO_WY as int])
}

/// Whether a picture generator and a machine are what the beginning of a
/// frame makes of them: the latches are taken, the window's line counter
/// starts anew, and LY is 0.
pub open spec fn frame_begun(before: Ppu, gb: Gameboy, after: Ppu, begun: Gameboy) -> bool {
    &&& after.lcd_is_off == frame_latches(gb).0
    &&& after.wy == frame_latches(gb).1
    &&& after.curr_window_line == 0
    &&& after.palette == before.palette
    &&& after.line_lcdc == before.line_lcdc
    &&& after.line_objects == before.line_objects
    &&& begun == (Gameboy { io_ports: gb.io_ports.with(IO_LY, 0), ..gb })
}

/// Begins a frame: latches whether the display is off and where the
/// window starts, restarts the window's line counter, and sets LY to 0.
pub fn begin_frame(ppu: &mut Ppu, gb: &mut Gameboy)
    ensures
        frame_begun(*old(ppu), *old(gb), *final(ppu), *final(gb)),
{
    ppu.lcd_is_off = gb.io_ports.read(IO_LCDC) & LCDC_ON == 0;
    ppu.wy = gb.io_ports.read(IO_WY);
    ppu.curr_window_line = 0;
    gb.io_ports.write(IO_LY, 0);
}

/// Whether entering the search of object memory raises the STAT
/// interrupt: STAT asks for an interrupt in mode 2.
pub open spec fn oam_interrupt(gb: Gameboy) -> bool {
    any_set(gb.io_ports.io_ports[IO_STAT as int], STAT_INT_M10)
}

/// The machine after a line has entered the search of object memory.
pub open spec fn after_enter_oam(gb: Gameboy) -> Gameboy {
    let g = with_mode(gb, STAT_MODE_OAM);
    if oam_interrupt(g) {
        raised(g, INT_LCDC)
    } else {
        g
    }
}

/// Enters the search of object memory: STAT shows mode 2 and the STAT
/// interrupt is raised if asked for. Says whether it was raised.
pub fn enter_oam_search(gb: &mut Gameboy) -> (interrupted: bool)
    ensures
        *final(gb) == after_enter_oam(*old(gb)),
        interrupted == oam_interrupt(with_mode(*old(gb), STAT_MODE_OAM)),
{
    set_mode(gb, STAT_MODE_OAM);
    let int_on_m10 = gb.io_ports.read(IO_STAT) & STAT_INT_M10 > 0;
    if int_on_m10 {
        raise_interrupt(gb, INT_LCDC);
        true
    } else {
        false
    }
}

/// Enters the transfer of pixels: STAT shows mode 3.
pub fn enter_pixel_transfer(gb: &mut Gameboy)
    ensures
        *final(gb) == with_mode(*old(gb), STAT_MODE_TRANSFER),
{
    set_mode(gb, STAT_MODE_TRANSFER);
}

/// Whether entering the horizontal blank raises the STAT interrupt: STAT
/// asks for an interrupt in mode 0, or asks for one on coincidence while
/// its coincidence flag says that LY and LYC coincide.
pub open spec fn hblank_interrupt(gb: Gameboy) -> bool {
    let stat = gb.io_ports.io_ports[IO_STAT as int];
    any_set(stat, STAT_INT_M00) || (any_set(stat, STAT_INT_LYC) && any_set(stat, STAT_LYC_SET))
}

/// The machine after a line has entered its horizontal blank.
pub open spec fn after_enter_hblank(gb: Gameboy) -> Gameboy {
    let g = with_mode(gb, STAT_MODE_HBLANK);
    if hblank_interrupt(g) {
        raised(g, INT_LCDC)
    } else {
        g
    }
}

/// Enters the horizontal blank: STAT shows mode 0 and the STAT interrupt
/// is raised if asked for. Says whether it was raised.
pub fn enter_hblank(gb: &mut Gameboy) -> (interrupted: bool)
    ensures
        *final(gb) == after_enter_hblank(*old(gb)),
        interrupted == hblank_interrupt(with_mode(*old(gb), STAT_MODE_HBLANK)),
{
    set_mode(gb, STAT_MODE_HBLANK);
    let stat = gb.io_ports.read(IO_STAT);
    let int_on_hblank = stat & STAT_INT_M00 > 0;
    let int_on_lyc_incident = stat & STAT_INT_LYC > 0;
    let lyc_incident = stat & STAT_LYC_SET > 0;
    if int_on_hblank || (int_on_lyc_incident && lyc_incident) {
        raise_interrupt(gb, INT_LCDC);
        true
    } else {
        false
    }
}

/// The machine after a visible line has ended: LY has moved on by one,
/// wrapping at the 8-bit boundary, and the coincidence flag of STAT says
/// whether LY now equals LYC.
pub open spec fn after_end_line(gb: Gameboy) -> Gameboy {
    let ly = gb.io_ports.io_ports[IO_LY as int].wrapping_add(1);
    let ports = gb.io_ports.with(IO_LY, ly);
    let stat = ports.io_ports[IO_STAT as int];
    Gameboy {
        io_ports: ports.with(
            IO_STAT,
            if ly == ports.io_ports[IO_LYC as int] {
                stat | STAT_LYC_SET
            } else {
                stat & !STAT_LYC_SET
            },
        ),
        ..gb
    }
}

/// Ends a visible line: increments LY and recomputes the coincidence
/// flag.
pub fn end_line(gb: &mut Gameboy)
    ensures
        *final(gb) == after_end_line(*old(gb)),
{
    gb.io_ports.add(IO_LY, 1);
    if gb.io_ports.read(IO_LY) == gb.io_ports.read(IO_LYC) {
        gb.io_ports.or(IO_STAT, STAT_LYC_SET);
    } else {
        gb.io_ports.and(IO_STAT, !STAT_LYC_SET);
    }
}

/// The interrupts that entering the vertical blank raises: VBlank, and
/// with it the STAT interrupt where STAT asks for an interrupt in mode 1.
pub open spec fn vblank_interrupts(gb: Gameboy) -> u8 {
    if any_set(gb.io_ports.io_ports[IO_STAT as int], STAT_INT_M01) {
        INT_VBLANK | INT_LCDC
    } else {
        INT_VBLANK
    }
}

/// The machine after the frame has entered its vertical blank.
pub open spec fn after_enter_vblank(gb: Gameboy) -> Gameboy {
    let g = with_mode(gb, STAT_MODE_VBLANK);
    raised(g, vblank_interrupts(g))
}

/// Enters the vertical blank: STAT shows mode 1, the VBlank interrupt is
/// raised, and the STAT interrupt if asked for. Says which were raised.
pub fn enter_vblank(gb: &mut Gameboy) -> (interrupts: u8)
    ensures
        *final(gb) == after_enter_vblank(*old(gb)),
        interrupts == vblank_interrupts(with_mode(*old(gb), STAT_MODE_VBLANK)),
{
    set_mode(gb, STAT_MODE_VBLANK);
    let int_on_m01 = gb.io_ports.read(IO_STAT) & STAT_INT_M01 > 0;
    let interrupts = if int_on_m01 { INT_VBLANK | INT_LCDC } else { INT_VBLANK };
    raise_interrupt(gb, interrupts);
    interrupts
}

/// The machine after a line of the vertical blank has ended: LY has moved
/// on by one, wrapping at the 8-bit boundary.
pub open spec fn after_vblank_line(gb: Gameboy) -> Gameboy {
    Gameboy { io_ports: gb.io_ports.with(IO_LY, gb.io_ports.io_ports[IO_LY as int].wrapping_add(1)), ..gb }
}

/// Ends a line of the vertical blank: LY moves on by one, wrapping at the
/// 8-bit boundary.
pub fn vblank_line(gb: &mut Gameboy)
    ensures
        *final(gb) == after_vblank_line(*old(gb)),
{
    gb.io_ports.add(IO_LY, 1);
}

/// The object that object memory holds at an index.
pub open spec fn object_at(oam: [u8; 0xa0], index: int) -> ObjAttr {
    ObjAttr { y: oam[4 * index], x: oam[4 * index + 1], tile_number: oam[4 * index + 2], flags: oam[4 * index + 3] }
}

/// Reads an object from object memory.
pub fn read_object(oam: &[u8; 0xa0], index: u8) -> (obj: ObjAttr)
    requires
        index < 40,
    ensures
        obj == object_at(*oam, index as int),
{
    let base = index as usize * 4;
    ObjAttr { y: oam[base], x: oam[base + 1], tile_number: oam[base + 2], flags: oam[base + 3] }
}

/// Whether an object covers a line. An object's `y` is the line below its
/// sixteenth line; it is 16 lines high where `tall` holds, else 8.
pub open spec fn covers_line(obj: ObjAttr, y: u8, tall: bool) -> bool {
    obj.y >= 16 && y >= obj.y - 16 && y < (if tall { obj.y as int } else { obj.y - 8 })
}

/// Tells whether an object covers a line.
pub fn object_covers(obj: ObjAttr, y: u8, tall: bool) -> (b: bool)
    ensures
        b == covers_line(obj, y, tall),
{
    obj.y >= 16 && y >= obj.y - 16 && y < (if tall { obj.y } else { obj.y - 8 })
}

/// Whether one object has priority over another: it lies further left,
/// or as far left and earlier in object memory.
pub open spec fn outranks(a: (u8, ObjAttr), b: (u8, ObjAttr)) -> bool {
    a.1.x < b.1.x || (a.1.x == b.1.x && a.0 < b.0)
}

/// Tells whether one object has priority over another.
pub fn has_priority(a: (u8, ObjAttr), b: (u8, ObjAttr)) -> (r: bool)
    ensures
        r == outranks(a, b),
{
    a.1.x < b.1.x || (a.1.x == b.1.x && a.0 < b.0)
}

/// Whether a list holds the object of an index of object memory.
pub open spec fn lists_object(line: Seq<(u8, ObjAttr)>, index: int) -> bool {
    exists|k: int| 0 <= k < line.len() && (#[trigger] line[k]).0 == index
}

/// Whether every entry of a list is an object of object memory, with its
/// index, that covers the line.
pub open spec fn objects_of_line(line: Seq<(u8, ObjAttr)>, oam: [u8; 0xa0], y: u8, tall: bool) -> bool {
    forall|k: int|
        0 <= k < line.len() ==> {
            &&& (#[trigger] line[k]).0 < 40
            &&& line[k].1 == object_at(oam, line[k].0 as int)
            &&& covers_line(line[k].1, y, tall)
        }
}

/// Whether a list is what the search of object memory finds for a line:
/// at most ten of the objects that cover the line; those with the highest
/// priority, where more than ten cover it; ordered so that an object comes
/// after every object that it has priority over, and so is painted on top
/// of it.
pub open spec fn is_line_selection(line: Seq<(u8, ObjAttr)>, oam: [u8; 0xa0], y: u8, tall: bool) -> bool {
    &&& line.len() <= 10
    &&& objects_of_line(line, oam, y, tall)
    &&& forall|a: int, b: int| 0 <= a < b < line.len() ==> outranks(#[trigger] line[b], #[trigger] line[a])
    &&& forall|i: int|
        0 <= i < 40 && covers_line(#[trigger] object_at(oam, i), y, tall) && !lists_object(line, i) ==> {
            &&& line.len() == 10
            &&& forall|k: int| 0 <= k < line.len() ==> outranks(#[trigger] line[k], (i as u8, object_at(oam, i)))
        }
}

/// Whether an object is still to be listed: it covers the line and the
/// last object listed, if any, has priority over it.
pub open spec fn is_candidate(
    asc: Seq<(u8, ObjAttr)>,
    oam: [u8; 0xa0],
    y: u8,
    tall: bool,
    i: int,
) -> bool {
    covers_line(object_at(oam, i), y, tall) && (asc.len() == 0 || outranks(
        asc[asc.len() - 1],
        (i as u8, object_at(oam, i)),
    ))
}

/// Whether a list holds, in order of falling priority, exactly the
/// objects that cover the line and that the last of the list does not
/// have priority over.
pub open spec fn is_prefix_selection(asc: Seq<(u8, ObjAttr)>, oam: [u8; 0xa0], y: u8, tall: bool) -> bool {
    &&& objects_of_line(asc, oam, y, tall)
    &&& forall|a: int, b: int| 0 <= a < b < asc.len() ==> outranks(#[trigger] asc[a], #[trigger] asc[b])
    &&& forall|i: int|
        0 <= i < 40 && covers_line(#[trigger] object_at(oam, i), y, tall) && !is_candidate(asc, oam, y, tall, i)
            ==> lists_object(asc, i)
}

/// Finds, among the objects still to be listed, the one with the highest
/// priority.
fn next_object(asc: &Vec<(u8, ObjAttr)>, oam: &[u8; 0xa0], y: u8, tall: bool) -> (best: Option<(u8, ObjAttr)>)
    ensures
        match best {
            Some(b) => {
                &&& b.0 < 40
                &&& b.1 == object_at(*oam, b.0 as int)
                &&& is_candidate(asc@, *oam, y, tall, b.0 as int)
                &&& forall|j: int|
                    0 <= j < 40 && is_candidate(asc@, *oam, y, tall, j) ==> !outranks(
                        (j as u8, #[trigger] object_at(*oam, j)),
                        b,
                    )
            },
            None => forall|j: int| 0 <= j < 40 ==> !is_candidate(asc@, *oam, y, tall, j),
        },
{
    let mut best: Option<(u8, ObjAttr)> = None;
    let mut i: u8 = 0;
    while i < 40
        invariant
            i <= 40,
            match best {
                Some(b) => {
                    &&& b.0 < i
                    &&& b.1 == object_at(*oam, b.0 as int)
                    &&& is_candidate(asc@, *oam, y, tall, b.0 as int)
                    &&& forall|j: int|
                        0 <= j < i && is_candidate(asc@, *oam, y, tall, j) ==> !outranks(
                            (j as u8, #[trigger] object_at(*oam, j)),
                            b,
                        )
                },
                None => forall|j: int| 0 <= j < i ==> !is_candidate(asc@, *oam, y, tall, j),
            },
        decreases 40 - i,
    {
        let obj = read_object(oam, i);
        let entry = (i, obj);
        let after_last = asc.len() == 0 || has_priority(asc[asc.len() - 1], entry);
        if object_covers(obj, y, tall) && after_last {
            let better = match best {
                Some(b) => has_priority(entry, b),
                None => true,
            };
            if better {
                best = Some(entry);
            }
        }
        i += 1;
    }
    best
}

/// Lists, in order of falling priority, up to ten of the objects that
/// cover a line.
fn select_objects(oam: &[u8; 0xa0], y: u8, tall: bool) -> (asc: Vec<(u8, ObjAttr)>)
    ensures
        asc@.len() <= 10,
        is_prefix_selection(asc@, *oam, y, tall),
        asc@.len() < 10 ==> forall|j: int| 0 <= j < 40 ==> !is_candidate(asc@, *oam, y, tall, j),
{
    let mut asc: Vec<(u8, ObjAttr)> = Vec::new();
    while asc.len() < 10
        invariant
            asc@.len() <= 10,
            is_prefix_selection(asc@, *oam, y, tall),
        decreases 10 - asc@.len(),
    {
        match next_object(&asc, oam, y, tall) {
            None => {
                return asc;
            },
            Some(b) => {
                let ghost before = asc@;
                asc.push(b);
                proof {
                    let after = asc@;
                    assert forall|i: int|
                        0 <= i < 40 && covers_line(#[trigger] object_at(*oam, i), y, tall) && !is_candidate(
                            after,
                            *oam,
                            y,
                            tall,
                            i,
                        ) implies lists_object(after, i) by {
                        if is_candidate(before, *oam, y, tall, i) {
                            // Not after `b`, and not before it: it is `b`.
                            assert(!outranks((i as u8, object_at(*oam, i)), b));
                            assert(i == b.0);
                            assert(after[before.len() as int].0 == i);
                        } else {
                            let k = choose|k: int| 0 <= k < before.len() && (#[trigger] before[k]).0 == i;
                            assert(after[k].0 == i);
                        }
                    }
                    assert forall|a: int, c: int| 0 <= a < c < after.len() implies outranks(
                        #[trigger] after[a],
                        #[trigger] after[c],
                    ) by {
                        if c == before.len() {
                            assert(after[a] == before[a]);
                            if a < before.len() - 1 {
                                assert(outranks(before[a], before[before.len() - 1]));
                            }
                        } else {
                            assert(after[a] == before[a] && after[c] == before[c]);
                        }
                    }
                }
            },
        }
    }
    asc
}

/// The objects that the search of object memory finds for a line, in the
/// order in which they are painted.
pub fn search_oam(oam: &[u8; 0xa0], y: u8, tall: bool) -> (line: Vec<(u8, ObjAttr)>)
    ensures
        is_line_selection(line@, *oam, y, tall),
{
    let asc = select_objects(oam, y, tall);
    // Higher-priority objects should come later so that they will be drawn on top of
    // lower-priority objects.
    let mut line: Vec<(u8, ObjAttr)> = Vec::new();
    let mut k: usize = asc.len();
    while k > 0
        invariant
            k <= asc@.len(),
            line@.len() == asc@.len() - k,
            forall|m: int| 0 <= m < line@.len() ==> #[trigger] line@[m] == asc@[asc@.len() - 1 - m],
        decreases k,
    {
        k -= 1;
        line.push(asc[k]);
    }
    proof {
        let n = asc@.len() as int;
        assert forall|i: int|
            0 <= i < 40 && covers_line(#[trigger] object_at(*oam, i), y, tall) && !lists_object(
                line@,
                i,
            ) implies line@.len() == 10 && (forall|m: int|
            0 <= m < line@.len() ==> outranks(#[trigger] line@[m], (i as u8, object_at(*oam, i)))) by {
            if lists_object(asc@, i) {
                let k = choose|k: int| 0 <= k < asc@.len() && (#[trigger] asc@[k]).0 == i;
                assert(line@[n - 1 - k].0 == i);
            }
            assert(is_candidate(asc@, *oam, y, tall, i));
            assert forall|m: int| 0 <= m < line@.len() implies outranks(
                #[trigger] line@[m],
                (i as u8, object_at(*oam, i)),
            ) by {
                let a = n - 1 - m;
                assert(line@[m] == asc@[a]);
                if a < n - 1 {
                    assert(outranks(asc@[a], asc@[n - 1]));
                }
            }
        }
        assert forall|a: int, b: int| 0 <= a < b < line@.len() implies outranks(
            #[trigger] line@[b],
            #[trigger] line@[a],
        ) by {
            assert(outranks(asc@[n - 1 - b], asc@[n - 1 - a]));
        }
    }
    line
}

/// Whether a picture generator is what the search of object memory for a
/// line makes of it: it holds LCDC as it stands and the line's objects,
/// in the order in which they are painted.
pub open spec fn line_searched(before: Ppu, gb: Gameboy, after: Ppu, y: u8) -> bool {
    &&& after.line_lcdc == gb.io_ports.io_ports[IO_LCDC as int]
    &&& is_line_selection(after.line_objects@, gb.oam, y, any_set(after.line_lcdc, LCDC_OBJ_SIZE))
    &&& after.palette == before.palette
    &&& after.lcd_is_off == before.lcd_is_off
    &&& after.wy == before.wy
    &&& after.curr_window_line == before.curr_window_line
}

/// Searches object memory for the objects of a line and keeps them, with
/// the LCDC register as it stands, for the transfer of pixels.
pub fn oam_search(ppu: &mut Ppu, gb: &Gameboy, y: u8)
    ensures
        line_searched(*old(ppu), *gb, *final(ppu), y),
{
    let lcdc = gb.io_ports.read(IO_LCDC);
    ppu.line_lcdc = lcdc;
    ppu.line_objects = search_oam(&gb.oam, y, lcdc & LCDC_OBJ_SIZE > 0);
}

/// One bit of a byte, as 0 or 1.
pub open spec fn bit_of(byte: u8, bit: u8) -> u8 {
    (byte >> bit) & 1
}

/// The shade that a palette register gives a colour: the two bits of the
/// register at twice the colour's number.
pub open spec fn shade(palette_reg: u8, color: u8) -> u8 {
    (palette_reg >> (color * 2) as u8) & 3
}

proof fn lemma_bit_of(byte: u8, bit: u8)
    by (bit_vector)
    requires
        bit < 8,
    ensures
        (byte >> bit) & 1 <= 1,
        (byte >> bit) & 3 <= 3,
{
}

/// Reads one bit of a byte.
fn read_bit(byte: u8, bit: u8) -> (b: u8)
    requires
        bit < 8,
    ensures
        b == bit_of(byte, bit),
        b <= 1,
{
    proof {
        lemma_bit_of(byte, bit);
    }
    (byte >> bit) & 1
}

/// Looks a colour up in a palette register.
fn read_shade(palette_reg: u8, color: u8) -> (s: u8)
    requires
        color <= 3,
    ensures
        s == shade(palette_reg, color),
        s <= 3,
{
    proof {
        lemma_bit_of(palette_reg, (color * 2) as u8);
    }
    (palette_reg >> (color * 2)) & 3
}

/// The colour, 0 to 3, of a pixel of a tile: the bit of the column in the
/// second byte of the tile's row, doubled, plus that bit in the first.
pub open spec fn tile_pixel(vram: [u8; 0x2000], row_start: int, col: u8) -> u8 {
    (2 * bit_of(vram[row_start + 1], (7 - col) as u8) + bit_of(vram[row_start], (7 - col) as u8)) as u8
}

/// Reads the colour of a pixel of a tile.
fn read_tile_pixel(vram: &[u8; 0x2000], row_start: usize, col: u8) -> (color: u8)
    requires
        row_start + 1 < 0x2000,
        col < 8,
    ensures
        color == tile_pixel(*vram, row_start as int, col),
        color <= 3,
{
    let high_bit = read_bit(vram[row_start + 1], 7 - col);
    let low_bit = read_bit(vram[row_start], 7 - col);
    2 * high_bit + low_bit
}

/// Reads the shade of a pixel of a tile through a palette register.
pub fn read_tile_shade(vram: &[u8; 0x2000], row_start: usize, col: u8, palette_reg: u8) -> (s: u8)
    requires
        row_start + 1 < 0x2000,
        col < 8,
    ensures
        s == shade(palette_reg, tile_pixel(*vram, row_start as int, col)),
        s <= 3,
{
    read_shade(palette_reg, read_tile_pixel(vram, row_start, col))
}

/// The registers that the transfer of pixels works from.
#[derive(Debug, Copy, Clone, PartialEq, Eq)]
pub struct LineRegs {
    pub lcdc: u8,
    pub scx: u8,
    pub scy: u8,
    pub wx: u8,
    pub bgp: u8,
    pub obp0: u8,
    pub obp1: u8,
}

/// The registers of a line: LCDC as it stood when object memory was
/// searched, the others as they stand.
pub open spec fn line_regs(lcdc: u8, ports: IoPorts) -> LineRegs {
    LineRegs {
        lcdc: lcdc,
        scx: ports.io_ports[IO_SCX as int],
        scy: ports.io_ports[IO_SCY as int],
        wx: ports.io_ports[IO_WX as int],
        bgp: ports.io_ports[IO_BGP as int],
        obp0: ports.io_ports[IO_OBP0 as int],
        obp1: ports.io_ports[IO_OBP1 as int],
    }
}

/// Where in video RAM the row of a background or window tile starts. The
/// control register says whether the tile's number counts from the first
/// block of tile data, or, taken plus 128 modulo 256, from the block that
/// starts at 0x0800.
pub open spec fn tile_row_start(lcdc: u8, tile: u8, row: int) -> int {
    if any_set(lcdc, LCDC_TILE_DATA) {
        tile * 16 + row * 2
    } else {
        0x0800 + tile.wrapping_add(128) * 16 + row * 2
    }
}

/// Where in video RAM the background's tile map starts.
pub open spec fn bg_map_base(lcdc: u8) -> int {
    if any_set(lcdc, LCDC_BG_TILE_MAP) {
        0x1c00
    } else {
        0x1800
    }
}

/// Where in video RAM the window's tile map starts.
pub open spec fn win_map_base(lcdc: u8) -> int {
    if any_set(lcdc, LCDC_WIN_TILE_MAP) {
        0x1c00
    } else {
        0x1800
    }
}

/// The shade of the pixel of the tile map at a position of the 256 by 256
/// plane.
pub open spec fn map_shade(vram: [u8; 0x2000], regs: LineRegs, map_base: int, px: u8, py: u8) -> u8 {
    let tile = vram[map_base + (py / 8) * 32 + px / 8];
    shade(regs.bgp, tile_pixel(vram, tile_row_start(regs.lcdc, tile, (py % 8) as int), px % 8))
}

/// Reads the shade of a pixel of a tile map.
fn read_map_shade(vram: &[u8; 0x2000], regs: LineRegs, map_base: usize, px: u8, py: u8) -> (s: u8)
    requires
        map_base == 0x1800 || map_base == 0x1c00,
    ensures
        s == map_shade(*vram, regs, map_base as int, px, py),
        s <= 3,
{
    let current_tile_ix = (py as usize / 8) * 32 + (px as usize / 8);
    let tile = vram[map_base + current_tile_ix];
    let row_ix = (py % 8) as usize;
    let row_start = if regs.lcdc & LCDC_TILE_DATA > 0 {
        tile as usize * 16 + row_ix * 2
    } else {
        0x0800 + tile.wrapping_add(128) as usize * 16 + row_ix * 2
    };
    read_shade(regs.bgp, read_tile_pixel(vram, row_start, px % 8))
}

/// The shade of the background at a pixel of the screen: the background
/// plane, scrolled by SCX and SCY, wraps around.
pub open spec fn bg_shade(vram: [u8; 0x2000], regs: LineRegs, x: u8, y: u8) -> u8 {
    map_shade(vram, regs, bg_map_base(regs.lcdc), x.wrapping_add(regs.scx), y.wrapping_add(regs.scy))
}

/// Whether the window covers a pixel of the screen: it is enabled, and the
/// pixel lies at or right of WX - 7 and at or below the line latched from
/// WY.
pub open spec fn window_covers(regs: LineRegs, wy: u8, x: u8, y: u8) -> bool {
    any_set(regs.lcdc, LCDC_WIN_DISP) && x + 7 >= regs.wx && x + 7 <= 166 && y >= wy && y <= 143
}

/// The shade of the window at a pixel of the screen, on the line of the
/// window that is drawn.
pub open spec fn window_shade(vram: [u8; 0x2000], regs: LineRegs, window_line: u8, x: u8) -> u8 {
    map_shade(vram, regs, win_map_base(regs.lcdc), (x + 7 - regs.wx) as u8, window_line)
}

/// The shade that an object gives a pixel of the screen, if it gives one:
/// none where the object does not cover the pixel, and none where the
/// object's colour there is 0, which is transparent. An object's `x` is
/// the column right of its eighth column; objects left of column 8 are not
/// shown.
pub open spec fn object_shade(vram: [u8; 0x2000], regs: LineRegs, obj: ObjAttr, x: u8, y: u8) -> Option<u8> {
    let tall = any_set(regs.lcdc, LCDC_OBJ_SIZE);
    if !(covers_line(obj, y, tall) && obj.x >= 8 && x >= obj.x - 8 && x < obj.x) {
        None
    } else {
        let row = y - (obj.y - 16);
        let col = x - (obj.x - 8);
        let row = if any_set(obj.flags, OBJ_Y_FLIP) {
            if tall {
                15 - row
            } else {
                7 - row
            }
        } else {
            row
        };
        let col = if any_set(obj.flags, OBJ_X_FLIP) {
            7 - col
        } else {
            col
        };
        let tile = if tall {
            obj.tile_number & 0b1111_1110
        } else {
            obj.tile_number
        };
        let color = tile_pixel(vram, tile * 16 + row * 2, col as u8);
        if color == 0 {
            None
        } else {
            Some(shade(if any_set(obj.flags, OBJ_PALETTE) { regs.obp1 } else { regs.obp0 }, color))
        }
    }
}

/// Reads the shade that an object gives a pixel.
fn read_object_shade(vram: &[u8; 0x2000], regs: LineRegs, obj: ObjAttr, x: u8, y: u8) -> (s: Option<u8>)
    ensures
        s == object_shade(*vram, regs, obj, x, y),
        s matches Some(v) ==> v <= 3,
{
    let tall = regs.lcdc & LCDC_OBJ_SIZE > 0;
    if !(object_covers(obj, y, tall) && obj.x >= 8 && x >= obj.x - 8 && x < obj.x) {
        return None;
    }
    let row_ix = y - (obj.y - 16);
    let col_ix = x - (obj.x - 8);
    let row_ix = if obj.flags & OBJ_Y_FLIP > 0 {
        if tall {
            15 - row_ix
        } else {
            7 - row_ix
        }
    } else {
        row_ix
    };
    let col_ix = if obj.flags & OBJ_X_FLIP > 0 {
        7 - col_ix
    } else {
        col_ix
    };
    let tile_number = if tall {
        obj.tile_number & 0b1111_1110
    } else {
        obj.tile_number
    };
    let row_start = (tile_number as usize * 16) + (row_ix as usize * 2);
    let palette_ix = read_tile_pixel(vram, row_start, col_ix);
    if palette_ix == 0 {
        return None;
    }
    let obp_reg = if obj.flags & OBJ_PALETTE > 0 { regs.obp1 } else { regs.obp0 };
    Some(read_shade(obp_reg, palette_ix))
}

/// The colour of a pixel once the objects of a list are painted over it,
/// first to last. An object paints its shade over what is there, unless
/// its priority flag is set and what is there is not the lightest shade.
pub open spec fn painted(
    palette: [Rgb; 4],
    vram: [u8; 0x2000],
    regs: LineRegs,
    line: Seq<(u8, ObjAttr)>,
    x: u8,
    y: u8,
    under: Rgb,
) -> Rgb
    decreases line.len(),
{
    if line.len() == 0 {
        under
    } else {
        let below = painted(palette, vram, regs, line.drop_last(), x, y, under);
        let obj = line.last().1;
        match object_shade(vram, regs, obj, x, y) {
            Some(s) => if any_set(obj.flags, OBJ_PRIORITY) && below != palette[0] {
                below
            } else {
                palette[s as int]
            },
            None => below,
        }
    }
}

/// What the picture generator works from while it transfers the pixels
/// of a line.
pub struct LineView {
    pub palette: [Rgb; 4],
    pub lcd_is_off: bool,
    pub wy: u8,
    pub window_line: u8,
    pub regs: LineRegs,
    pub line_objects: Seq<(u8, ObjAttr)>,
}

/// The colour of a pixel of the screen: the lightest shade while the
/// display is off; else the background where it is enabled, the window
/// over it where the window covers the pixel, and the objects over both
/// where objects are enabled.
pub open spec fn pixel_color(view: LineView, vram: [u8; 0x2000], x: u8, y: u8) -> Rgb {
    if view.lcd_is_off {
        view.palette[0]
    } else {
        let ground = if any_set(view.regs.lcdc, LCDC_BG_DISP) {
            view.palette[bg_shade(vram, view.regs, x, y) as int]
        } else {
            view.palette[0]
        };
        let with_window = if window_covers(view.regs, view.wy, x, y) {
            view.palette[window_shade(vram, view.regs, view.window_line, x) as int]
        } else {
            ground
        };
        if any_set(view.regs.lcdc, LCDC_OBJ_DISP) {
            painted(view.palette, vram, view.regs, view.line_objects, x, y, with_window)
        } else {
            with_window
        }
    }
}

/// Whether two colours are the same.
fn same_rgb(a: Rgb, b: Rgb) -> (r: bool)
    ensures
        r == (a == b),
{
    a.0 == b.0 && a.1 == b.1 && a.2 == b.2
}

/// Composes the colour of a pixel of the screen.
fn compose_pixel(ppu: &Ppu, regs: LineRegs, vram: &[u8; 0x2000], x: u8, y: u8) -> (color: Rgb)
    requires
        x < 160,
    ensures
        color == pixel_color(ppu.view_with(regs), *vram, x, y),
{
    let mut color = ppu.palette[0];
    if ppu.lcd_is_off {
        return color;
    }
    if regs.lcdc & LCDC_BG_DISP > 0 {
        let scrolled_x = x.wrapping_add(regs.scx);
        let scrolled_y = y.wrapping_add(regs.scy);
        let map_base: usize = if regs.lcdc & LCDC_BG_TILE_MAP > 0 { 0x1c00 } else { 0x1800 };
        color = ppu.palette[read_map_shade(vram, regs, map_base, scrolled_x, scrolled_y) as usize];
    }
    if regs.lcdc & LCDC_WIN_DISP > 0 {
        if x as u16 + 7 >= regs.wx as u16 && x as u16 + 7 <= 166 && y >= ppu.wy && y <= 143 {
            let window_x = (x as u16 + 7 - regs.wx as u16) as u8;
            let map_base: usize = if regs.lcdc & LCDC_WIN_TILE_MAP > 0 { 0x1c00 } else { 0x1800 };
            color = ppu.palette[read_map_shade(vram, regs, map_base, window_x, ppu.curr_window_line) as usize];
        }
    }
    if regs.lcdc & LCDC_OBJ_DISP > 0 {
        let ghost under = color;
        let mut k: usize = 0;
        while k < ppu.line_objects.len()
            invariant
                k <= ppu.line_objects@.len(),
                color == painted(ppu.palette, *vram, regs, ppu.line_objects@.take(k as int), x, y, under),
            decreases ppu.line_objects@.len() - k,
        {
            let obj = ppu.line_objects[k].1;
            proof {
                let next = ppu.line_objects@.take(k + 1);
                assert(next.drop_last() =~= ppu.line_objects@.take(k as int));
                assert(next.last() == ppu.line_objects@[k as int]);
            }
            match read_object_shade(vram, regs, obj, x, y) {
                Some(s) => {
                    let priority = obj.flags & OBJ_PRIORITY > 0;
                    if !(priority && !same_rgb(color, ppu.palette[0])) {
                        color = ppu.palette[s as usize];
                    }
                },
                None => {},
            }
            k += 1;
        }
        assert(ppu.line_objects@.take(k as int) =~= ppu.line_objects@);
    }
    color
}

impl Ppu {
    /// What the picture generator works from for the line in hand, given
    /// the line's registers.
    pub open spec fn view_with(&self, regs: LineRegs) -> LineView {
        LineView {
            palette: self.palette,
            lcd_is_off: self.lcd_is_off,
            wy: self.wy,
            window_line: self.curr_window_line,
            regs: regs,
            line_objects: self.line_objects@,
        }
    }
}

/// The line of the window that is drawn next, once a line of the screen
/// has been drawn: one further where the window reached the line's last
/// pixel, else the same.
pub open spec fn next_window_line(view: LineView, y: u8) -> int {
    if !view.lcd_is_off && window_covers(view.regs, view.wy, 159, y) {
        view.window_line + 1
    } else {
        view.window_line as int
    }
}

/// Samples the registers of a line.
fn read_line_regs(lcdc: u8, ports: &IoPorts) -> (regs: LineRegs)
    ensures
        regs == line_regs(lcdc, *ports),
{
    LineRegs {
        lcdc: lcdc,
        scx: ports.read(IO_SCX),
        scy: ports.read(IO_SCY),
        wx: ports.read(IO_WX),
        bgp: ports.read(IO_BGP),
        obp0: ports.read(IO_OBP0),
        obp1: ports.read(IO_OBP1),
    }
}

/// Whether a picture generator and a machine are what the transfer of a
/// line's pixels makes of them: STAT shows mode 3, every pixel of the line
/// is composed from video RAM, the line's registers and the objects found
/// for the line, the other lines of the screen stay as they are, and the
/// window's line counter has advanced if the line showed the window.
pub open spec fn line_transferred(before: Ppu, gb: Gameboy, after: Ppu, drawn: Gameboy, y: u8) -> bool {
    let entered = with_mode(gb, STAT_MODE_TRANSFER);
    let view = before.view_with(line_regs(before.line_lcdc, entered.io_ports));
    &&& forall|x: int| 0 <= x < 160 ==> drawn.screen[y as int][x] == pixel_color(view, gb.vram, x as u8, y)
    &&& forall|r: int| 0 <= r < 144 && r != y ==> drawn.screen[r] == gb.screen[r]
    &&& (Gameboy { screen: gb.screen, ..drawn }) == entered
    &&& after.curr_window_line == next_window_line(view, y)
    &&& after.curr_window_line <= y + 1
    &&& after.palette == before.palette
    &&& after.lcd_is_off == before.lcd_is_off
    &&& after.wy == before.wy
    &&& after.line_lcdc == before.line_lcdc
    &&& after.line_objects == before.line_objects
}

/// Transfers the pixels of a line to the screen: STAT shows mode 3, every
/// pixel of the line is composed from video RAM, the line's registers and
/// the objects found for the line, and the window's line counter advances
/// if the line showed the window. The other lines of the screen stay as
/// they are.
pub fn pixel_transfer(ppu: &mut Ppu, gb: &mut Gameboy, y: u8)
    requires
        y < 144,
        old(ppu).curr_window_line <= y,
    ensures
        line_transferred(*old(ppu), *old(gb), *final(ppu), *final(gb), y),
{
    enter_pixel_transfer(gb);
    let regs = read_line_regs(ppu.line_lcdc, &gb.io_ports);
    let ghost entered = *gb;
    let ghost view = ppu.view_with(regs);
    let mut x: u8 = 0;
    while x < 160
        invariant
            x <= 160,
            y < 144,
            view == ppu.view_with(regs),
            forall|c: int| 0 <= c < x ==> gb.screen[y as int][c] == pixel_color(view, gb.vram, c as u8, y),
            forall|r: int| 0 <= r < 144 && r != y ==> gb.screen[r] == entered.screen[r],
            (Gameboy { screen: entered.screen, ..*gb }) == entered,
        decreases 160 - x,
    {
        let color = compose_pixel(ppu, regs, &gb.vram, x, y);
        gb.screen[y as usize][x as usize] = color;
        x += 1;
    }
    // If the window gets disabled during HBlank and then re-enabled later on,
    // we want to continue drawing from where we left off
    if !ppu.lcd_is_off && regs.lcdc & LCDC_WIN_DISP > 0 && 166 >= regs.wx && y >= ppu.wy {
        ppu.curr_window_line += 1;
    }
}

} // verus!
