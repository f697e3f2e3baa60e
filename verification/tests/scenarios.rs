use gameboy::bess::Bess;
use gameboy::cartridge::{load_cartridge, Cartridge};
use gameboy::cpu::run::service_interrupt;
use gameboy::cpu::step::step;
use gameboy::gameboy::{
    Gameboy, FLAG_Z, INT_TIMER, INT_VBLANK, IO_BGP, IO_IE, IO_IF, IO_LCDC, IO_OBP0, IO_OBP1, IO_WX, IO_WY,
    LCDC_BG_DISP, LCDC_OBJ_DISP, LCDC_ON, LCDC_TILE_DATA, LCDC_WIN_DISP, RB, RF,
};
use gameboy::ppu::{begin_frame, oam_search, pixel_transfer, Ppu, PALETTE_GREY};

fn test_cartridge(bytes: Vec<u8>) -> Cartridge {
    let mut rom = vec![0u8; 0x8000];
    for (i, byte) in bytes.iter().enumerate() {
        rom[0x0100 + i] = *byte;
    }
    load_cartridge(&rom).unwrap()
}

#[test]
fn load_immediate_into_b() {
    let mut gb = Gameboy::new(test_cartridge(vec![0x06, 0x99]));
    gb.regs[RB] = 0x12;
    let pc = gb.pc;
    let cycles = gb.cycles;

    step(&mut gb).unwrap();

    assert_eq!(gb.regs[RB], 0x99);
    assert_eq!(gb.pc, pc + 2);
    assert_eq!(gb.cycles, cycles + 2);
}

#[test]
fn relative_jump_if_not_zero_not_taken() {
    let mut gb = Gameboy::new(test_cartridge(vec![0x20, 0x10]));
    gb.regs[RF] = FLAG_Z;

    step(&mut gb).unwrap();

    assert_eq!(gb.cycles, 2);
    assert_eq!(gb.pc, 0x0102);
}

#[test]
fn relative_jump_if_not_zero_taken() {
    let mut gb = Gameboy::new(test_cartridge(vec![0x20, 0x10]));
    gb.regs[RF] = 0;

    step(&mut gb).unwrap();

    assert_eq!(gb.cycles, 3);
    assert_eq!(gb.pc, 0x0100 + 2 + 0x10);
}

#[test]
fn relative_jump_backwards_taken() {
    let mut gb = Gameboy::new(test_cartridge(vec![0x20, 0xfc]));
    gb.regs[RF] = 0;

    step(&mut gb).unwrap();

    assert_eq!(gb.cycles, 3);
    assert_eq!(gb.pc, 0x0100 + 2 - 4);
}

#[test]
fn vblank_is_served_before_timer() {
    let mut gb = Gameboy::new(test_cartridge(vec![0x00]));
    gb.ime = true;
    gb.interrupt_received = true;
    gb.io_ports.write(IO_IE, INT_VBLANK | INT_TIMER);
    gb.io_ports.write(IO_IF, INT_VBLANK | INT_TIMER);
    gb.pc = 0x1234;
    gb.sp = 0xfffe;

    let served = service_interrupt(&mut gb).unwrap();

    assert_eq!(served, Some(INT_VBLANK));
    assert_eq!(gb.pc, 0x0040);
    assert_eq!(gb.io_ports.read(IO_IF), INT_TIMER);
    assert!(!gb.ime);
    assert!(!gb.interrupt_received);
    assert_eq!(gb.sp, 0xfffc);
    assert_eq!(gb.read(0xfffd).unwrap(), 0x12);
    assert_eq!(gb.read(0xfffc).unwrap(), 0x34);

    // The timer is served once interrupts are enabled again.
    gb.ime = true;
    let served = service_interrupt(&mut gb).unwrap();
    assert_eq!(served, Some(INT_TIMER));
    assert_eq!(gb.pc, 0x0050);
    assert_eq!(gb.io_ports.read(IO_IF), 0);
}

#[test]
fn interrupt_needs_gate_and_enable() {
    let mut gb = Gameboy::new(test_cartridge(vec![0x00]));
    gb.io_ports.write(IO_IE, INT_VBLANK);
    gb.io_ports.write(IO_IF, INT_VBLANK);
    assert_eq!(service_interrupt(&mut gb).unwrap(), None);
    assert_eq!(gb.pc, 0x0100);

    gb.ime = true;
    gb.io_ports.write(IO_IE, INT_TIMER);
    assert_eq!(service_interrupt(&mut gb).unwrap(), None);
    assert_eq!(gb.io_ports.read(IO_IF), INT_VBLANK);
    assert!(gb.ime);
}

/// Fills a tile of the first block of tile data with one colour.
fn fill_tile(gb: &mut Gameboy, tile: usize, color: u8) {
    for row in 0..8 {
        gb.vram[tile * 16 + row * 2] = if color & 1 != 0 { 0xff } else { 0x00 };
        gb.vram[tile * 16 + row * 2 + 1] = if color & 2 != 0 { 0xff } else { 0x00 };
    }
}

fn put_object(gb: &mut Gameboy, index: usize, y: u8, x: u8, tile: u8, flags: u8) {
    gb.oam[index * 4] = y;
    gb.oam[index * 4 + 1] = x;
    gb.oam[index * 4 + 2] = tile;
    gb.oam[index * 4 + 3] = flags;
}

#[test]
fn lower_oam_index_wins_at_equal_x() {
    let mut gb = Gameboy::new(test_cartridge(vec![0x00]));
    gb.io_ports.write(IO_LCDC, LCDC_ON | LCDC_OBJ_DISP);
    // Object 3 paints the darkest shade through OBP0, object 7 the next
    // through OBP1.
    gb.io_ports.write(IO_OBP0, 0b1111_1111);
    gb.io_ports.write(IO_OBP1, 0b1010_1010);
    fill_tile(&mut gb, 1, 3);
    put_object(&mut gb, 7, 16, 20, 1, 0b0001_0000);
    put_object(&mut gb, 3, 16, 20, 1, 0);

    let mut ppu = Ppu::new(&gb, PALETTE_GREY);
    begin_frame(&mut ppu, &mut gb);
    oam_search(&mut ppu, &gb, 0);
    pixel_transfer(&mut ppu, &mut gb, 0);

    assert_eq!(ppu.line_objects.len(), 2);
    assert_eq!(ppu.line_objects[0].0, 7);
    assert_eq!(ppu.line_objects[1].0, 3);
    for x in 12..20 {
        assert_eq!(gb.screen[0][x], PALETTE_GREY[3]);
    }
    assert_eq!(gb.screen[0][11], PALETTE_GREY[0]);
    assert_eq!(gb.screen[0][20], PALETTE_GREY[0]);
}

#[test]
fn smaller_x_wins_over_lower_index() {
    let mut gb = Gameboy::new(test_cartridge(vec![0x00]));
    gb.io_ports.write(IO_LCDC, LCDC_ON | LCDC_OBJ_DISP);
    gb.io_ports.write(IO_OBP0, 0b1111_1111);
    gb.io_ports.write(IO_OBP1, 0b1010_1010);
    fill_tile(&mut gb, 1, 3);
    put_object(&mut gb, 3, 16, 24, 1, 0);
    put_object(&mut gb, 7, 16, 20, 1, 0b0001_0000);

    let mut ppu = Ppu::new(&gb, PALETTE_GREY);
    begin_frame(&mut ppu, &mut gb);
    oam_search(&mut ppu, &gb, 0);
    pixel_transfer(&mut ppu, &mut gb, 0);

    // Columns 16 to 19 are shared; object 7 lies further left.
    for x in 16..20 {
        assert_eq!(gb.screen[0][x], PALETTE_GREY[2]);
    }
    for x in 20..24 {
        assert_eq!(gb.screen[0][x], PALETTE_GREY[3]);
    }
}

#[test]
fn at_most_ten_objects_a_line() {
    let mut gb = Gameboy::new(test_cartridge(vec![0x00]));
    gb.io_ports.write(IO_LCDC, LCDC_ON | LCDC_OBJ_DISP);
    for index in 0..12 {
        put_object(&mut gb, index, 16, 100 - index as u8, 1, 0);
    }
    let mut ppu = Ppu::new(&gb, PALETTE_GREY);
    oam_search(&mut ppu, &gb, 3);

    // The ten leftmost, the leftmost last.
    assert_eq!(ppu.line_objects.len(), 10);
    let indices: Vec<u8> = ppu.line_objects.iter().map(|o| o.0).collect();
    assert_eq!(indices, vec![2, 3, 4, 5, 6, 7, 8, 9, 10, 11]);

    // Line 8 is below objects that are 8 lines high.
    oam_search(&mut ppu, &gb, 8);
    assert_eq!(ppu.line_objects.len(), 0);
}

fn le16(value: u16) -> [u8; 2] {
    [value as u8, (value >> 8) as u8]
}

/// A save state of an info block, a core block and, if asked for, an end
/// block, behind `padding` bytes.
fn save_state(padding: usize, with_end: bool) -> Vec<u8> {
    let mut bytes = vec![0u8; padding];
    bytes.extend_from_slice(b"INFO");
    bytes.push(0x12);
    bytes.extend_from_slice(b"0123456789abcdef");
    bytes.extend_from_slice(&le16(0x1234));
    bytes.extend_from_slice(b"CORE");
    bytes.push(0xd0);
    bytes.extend_from_slice(&le16(1));
    bytes.extend_from_slice(&le16(1));
    bytes.extend_from_slice(b"GD  ");
    for value in [0x0150u16, 0x01b0, 0x0013, 0x00d8, 0x014d, 0xfffe] {
        bytes.extend_from_slice(&le16(value));
    }
    bytes.extend_from_slice(&[0x01, 0x1f, 0x00, 0x00]);
    bytes.extend_from_slice(&[0u8; 128]);
    for _ in 0..7 {
        // size 4, start 0
        bytes.extend_from_slice(&[4, 0, 0, 0, 0, 0, 0, 0]);
    }
    if with_end {
        bytes.extend_from_slice(b"END ");
        bytes.push(0);
    }
    bytes.extend_from_slice(&[padding as u8, 0, 0, 0]);
    bytes.extend_from_slice(b"BESS");
    bytes
}

#[test]
fn save_state_loads() {
    let bytes = save_state(8, true);
    let bess = Bess::new(&bytes, "game.bess").unwrap();

    assert_eq!(bess.filename, "game.bess");
    assert_eq!(&bess.info_block.title, b"0123456789abcdef");
    assert_eq!(bess.info_block.checksum, 0x1234);
    assert_eq!(bess.core_block.pc, 0x0150);
    assert_eq!(bess.core_block.af, 0x01b0);
    assert_eq!(bess.core_block.bc, 0x0013);
    assert_eq!(bess.core_block.de, 0x00d8);
    assert_eq!(bess.core_block.hl, 0x014d);
    assert_eq!(bess.core_block.sp, 0xfffe);
    assert_eq!(bess.core_block.ime, 1);
    assert_eq!(bess.core_block.ie, 0x1f);
    assert_eq!(bess.core_block.execution_state, 0);
    assert_eq!(bess.core_block.ram, &bytes[0..4]);
    assert!(bess.name_block.is_none());
    assert!(bess.xaom_block.is_none());
    assert!(bess.sgb_block.is_none());
}

#[test]
fn save_state_without_end_block_fails() {
    let bytes = save_state(8, false);
    let err = Bess::new(&bytes, "game.bess").unwrap_err();
    assert_eq!(err, "Missing END block");
}

#[test]
fn window_line_counter_resumes() {
    let mut gb = Gameboy::new(test_cartridge(vec![0x00]));
    gb.io_ports.write(IO_BGP, 0b1110_0100);
    gb.io_ports.write(IO_WX, 7);
    gb.io_ports.write(IO_WY, 0);
    // Tile 1 is of colour 1 in its first row and colour 0 below, tile 2 of
    // colour 2 in its fourth row.
    gb.vram[16] = 0xff;
    gb.vram[2 * 16 + 3 * 2 + 1] = 0xff;
    // The window's map shows tile 1 in its first row of tiles and tile 2 in
    // its second.
    for column in 0..32 {
        gb.vram[0x1800 + column] = 1;
        gb.vram[0x1800 + 32 + column] = 2;
    }
    let shown = LCDC_ON | LCDC_TILE_DATA | LCDC_WIN_DISP;
    let hidden = LCDC_ON | LCDC_TILE_DATA;

    let mut ppu = Ppu::new(&gb, PALETTE_GREY);
    begin_frame(&mut ppu, &mut gb);
    for y in 0..32u8 {
        let visible = (10..=20).contains(&y) || y == 31;
        gb.io_ports.write(IO_LCDC, if visible { shown } else { hidden });
        if y == 31 {
            assert_eq!(ppu.curr_window_line, 11);
        }
        oam_search(&mut ppu, &gb, y);
        pixel_transfer(&mut ppu, &mut gb, y);
    }

    assert_eq!(ppu.curr_window_line, 12);
    // Line 10 of the screen shows line 0 of the window.
    assert_eq!(gb.screen[10][0], PALETTE_GREY[1]);
    // Line 11 shows line 1: colour 0.
    assert_eq!(gb.screen[11][0], PALETTE_GREY[0]);
    // Line 31 shows line 11 of the window, the fourth row of tile 2, not line 0.
    assert_eq!(gb.screen[31][0], PALETTE_GREY[2]);
    // The background is off: hidden lines are blank.
    assert_eq!(gb.screen[25][0], PALETTE_GREY[0]);
    let _ = LCDC_BG_DISP;
}
