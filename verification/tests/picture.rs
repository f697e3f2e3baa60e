use gameboy::bess::{
    read_memory_range, read_u16, read_u32, read_u64, read_u8, skipped_blocks, Bess, Huc3Block, SgbBlock,
};
use gameboy::cartridge::load_cartridge;
use gameboy::frame::{run_phase, Hold, Phase};
use gameboy::gameboy::{
    Gameboy, INT_LCDC, INT_TIMER, INT_VBLANK, IO_BGP, IO_IE, IO_IF, IO_LCDC, IO_LY, IO_LYC, IO_SCX, IO_SCY, IO_STAT,
    LCDC_BG_DISP, LCDC_BG_TILE_MAP, LCDC_OBJ_DISP, LCDC_OBJ_SIZE, LCDC_ON, LCDC_TILE_DATA, STAT_INT_LYC,
    STAT_INT_M00, STAT_INT_M01, STAT_INT_M10, STAT_LYC_SET,
};
use gameboy::ppu::{
    begin_frame, end_line, enter_hblank, enter_oam_search, enter_pixel_transfer, enter_vblank, oam_search,
    pixel_transfer, vblank_line, ObjAttr, Ppu, OBJ_PRIORITY, OBJ_X_FLIP, OBJ_Y_FLIP, PALETTE_GREY,
};
use gameboy::screen::{copy_line, viewer_pixel, viewer_tile_at};

fn machine() -> Gameboy {
    Gameboy::new(load_cartridge(&vec![0u8; 0x8000]).unwrap())
}

#[test]
fn fresh_picture_generator() {
    let mut gb = machine();
    gb.io_ports.write(IO_LCDC, 0x83);
    let ppu = Ppu::new(&gb, PALETTE_GREY);
    assert_eq!(ppu.palette, PALETTE_GREY);
    assert_eq!(ppu.curr_window_line, 0);
    assert_eq!(ppu.line_lcdc, 0x83);
    assert!(ppu.line_objects.is_empty());
    assert!(!ppu.lcd_is_off);

    let cpu = gameboy::debug_info::DebugInfoCpu::new();
    assert_eq!((cpu.expected_time_nanos, cpu.actual_time_nanos), (0, 0));
    let info = gameboy::debug_info::DebugInfoPpu::new();
    assert_eq!((info.expected_time_micros, info.actual_time_micros, info.oam_time_nanos), (0, 0, 0));
}

#[test]
fn object_from_bytes() {
    let obj = ObjAttr::new(&[16, 8, 3, 0x80, 99]);
    assert_eq!(obj, ObjAttr { y: 16, x: 8, tile_number: 3, flags: 0x80 });
}

#[test]
fn phases_show_in_stat() {
    let mut gb = machine();
    gb.io_ports.write(IO_STAT, 0b0000_0100);
    assert!(!enter_oam_search(&mut gb));
    assert_eq!(gb.io_ports.read(IO_STAT), 0b0000_0110);
    enter_pixel_transfer(&mut gb);
    assert_eq!(gb.io_ports.read(IO_STAT), 0b0000_0111);
    assert!(!enter_hblank(&mut gb));
    assert_eq!(gb.io_ports.read(IO_STAT), 0b0000_0100);
    assert_eq!(gb.io_ports.read(IO_IF), 0);
    assert!(!gb.interrupt_received);
    assert_eq!(enter_vblank(&mut gb), INT_VBLANK);
    assert_eq!(gb.io_ports.read(IO_STAT), 0b0000_0101);
    assert_eq!(gb.io_ports.read(IO_IF), INT_VBLANK);
    assert!(gb.interrupt_received);
}

#[test]
fn phases_raise_interrupts() {
    // The status bits alone decide: interrupts are disabled and none is
    // enabled.
    let mut gb = machine();
    gb.ime = false;
    gb.io_ports.write(IO_IE, 0);
    gb.io_ports.write(IO_STAT, STAT_INT_M10);
    assert!(enter_oam_search(&mut gb));
    assert_eq!(gb.io_ports.read(IO_IF), INT_LCDC);
    assert!(gb.interrupt_received);

    gb.io_ports.write(IO_IF, 0);
    assert!(!enter_hblank(&mut gb));
    gb.io_ports.write(IO_STAT, STAT_INT_M00);
    assert!(enter_hblank(&mut gb));
    gb.io_ports.write(IO_IF, 0);
    gb.io_ports.write(IO_STAT, STAT_INT_LYC);
    assert!(!enter_hblank(&mut gb));
    gb.io_ports.write(IO_STAT, STAT_INT_LYC | STAT_LYC_SET);
    assert!(enter_hblank(&mut gb));
    assert_eq!(gb.io_ports.read(IO_IF), INT_LCDC);

    gb.io_ports.write(IO_IF, 0);
    gb.io_ports.write(IO_STAT, STAT_INT_M01);
    assert_eq!(enter_vblank(&mut gb), INT_VBLANK | INT_LCDC);
    assert_eq!(gb.io_ports.read(IO_IF), INT_VBLANK | INT_LCDC);
    gb.io_ports.write(IO_IF, INT_TIMER);
    gb.io_ports.write(IO_STAT, 0);
    assert_eq!(enter_vblank(&mut gb), INT_VBLANK);
    assert_eq!(gb.io_ports.read(IO_IF), INT_VBLANK | INT_TIMER);
    assert_eq!(gb.io_ports.read(IO_IE), 0);
}

#[test]
fn line_counter_and_coincidence() {
    let mut gb = machine();
    let mut ppu = Ppu::new(&gb, PALETTE_GREY);
    gb.io_ports.write(IO_LY, 77);
    gb.io_ports.write(IO_LYC, 2);
    begin_frame(&mut ppu, &mut gb);
    assert_eq!(gb.io_ports.read(IO_LY), 0);
    end_line(&mut gb);
    assert_eq!(gb.io_ports.read(IO_LY), 1);
    assert_eq!(gb.io_ports.read(IO_STAT) & STAT_LYC_SET, 0);
    end_line(&mut gb);
    assert_eq!(gb.io_ports.read(IO_LY), 2);
    assert_eq!(gb.io_ports.read(IO_STAT) & STAT_LYC_SET, STAT_LYC_SET);
    end_line(&mut gb);
    assert_eq!(gb.io_ports.read(IO_STAT) & STAT_LYC_SET, 0);
    gb.io_ports.write(IO_LY, 255);
    vblank_line(&mut gb);
    assert_eq!(gb.io_ports.read(IO_LY), 0);
}

#[test]
fn display_off_blanks_the_line() {
    let mut gb = machine();
    gb.io_ports.write(IO_LCDC, LCDC_BG_DISP | LCDC_TILE_DATA);
    gb.io_ports.write(IO_BGP, 0b1110_0100);
    for row in 0..16 {
        gb.vram[row] = 0xff;
    }
    let mut ppu = Ppu::new(&gb, PALETTE_GREY);
    gb.screen[5][5] = (1, 2, 3);
    gb.screen[6][5] = (1, 2, 3);
    begin_frame(&mut ppu, &mut gb);
    assert!(ppu.lcd_is_off);
    oam_search(&mut ppu, &gb, 5);
    pixel_transfer(&mut ppu, &mut gb, 5);
    for x in 0..160 {
        assert_eq!(gb.screen[5][x], PALETTE_GREY[0]);
    }
    assert_eq!(gb.screen[6][5], (1, 2, 3));
}

#[test]
fn background_scrolls_and_wraps() {
    let mut gb = machine();
    gb.io_ports.write(IO_LCDC, LCDC_ON | LCDC_BG_DISP | LCDC_TILE_DATA);
    gb.io_ports.write(IO_BGP, 0b1110_0100);
    // Tile 1: colour 3 in its leftmost column of row 2.
    gb.vram[16 + 2 * 2] = 0b1000_0000;
    gb.vram[16 + 2 * 2 + 1] = 0b1000_0000;
    // The map shows tile 1 at column 31 of row 31.
    gb.vram[0x1800 + 31 * 32 + 31] = 1;
    gb.io_ports.write(IO_SCX, 248);
    gb.io_ports.write(IO_SCY, 250);
    let mut ppu = Ppu::new(&gb, PALETTE_GREY);
    begin_frame(&mut ppu, &mut gb);
    oam_search(&mut ppu, &gb, 0);
    pixel_transfer(&mut ppu, &mut gb, 0);
    // Line 0 is line 250 of the plane: row 2 of the tiles of row 31.
    assert_eq!(gb.screen[0][0], PALETTE_GREY[3]);
    assert_eq!(gb.screen[0][1], PALETTE_GREY[0]);
    // Column 8 is column 0 of the plane again.
    assert_eq!(gb.screen[0][8], PALETTE_GREY[0]);

    // The other map, and signed tile numbers: number 0x80 is the tile at
    // 0x0800.
    gb.io_ports.write(IO_LCDC, LCDC_ON | LCDC_BG_DISP | LCDC_BG_TILE_MAP);
    gb.io_ports.write(IO_SCX, 0);
    gb.io_ports.write(IO_SCY, 0);
    gb.vram[0x1c00] = 0x80;
    gb.vram[0x0800] = 0xff;
    gb.vram[0x1c01] = 0x7f;
    gb.vram[0x0800 + 255 * 16 + 1] = 0xff;
    oam_search(&mut ppu, &gb, 0);
    pixel_transfer(&mut ppu, &mut gb, 0);
    assert_eq!(gb.screen[0][0], PALETTE_GREY[1]);
    assert_eq!(gb.screen[0][8], PALETTE_GREY[2]);
    assert_eq!(gb.screen[0][16], PALETTE_GREY[0]);
}

#[test]
fn objects_flip_and_yield_to_background() {
    let mut gb = machine();
    gb.io_ports.write(IO_LCDC, LCDC_ON | LCDC_BG_DISP | LCDC_OBJ_DISP | LCDC_TILE_DATA);
    gb.io_ports.write(IO_BGP, 0b1110_0100);
    // Tile 2: colour 1 in the leftmost column of its first row.
    gb.vram[2 * 16] = 0b1000_0000;
    // Tile 3 is of colour 3 throughout; the background shows it in its
    // second column of tiles.
    for row in 0..8 {
        gb.vram[3 * 16 + row * 2] = 0xff;
        gb.vram[3 * 16 + row * 2 + 1] = 0xff;
    }
    gb.vram[0x1800 + 1] = 3;

    let put = |gb: &mut Gameboy, index: usize, y: u8, x: u8, tile: u8, flags: u8| {
        gb.oam[index * 4] = y;
        gb.oam[index * 4 + 1] = x;
        gb.oam[index * 4 + 2] = tile;
        gb.oam[index * 4 + 3] = flags;
    };
    put(&mut gb, 0, 16, 8, 2, 0);
    put(&mut gb, 1, 16, 40, 2, OBJ_X_FLIP);
    put(&mut gb, 2, 17, 60, 2, OBJ_Y_FLIP);
    put(&mut gb, 3, 16, 16, 2, OBJ_PRIORITY);
    put(&mut gb, 4, 16, 80, 2, OBJ_PRIORITY);
    put(&mut gb, 5, 16, 7, 3, 0);

    let mut ppu = Ppu::new(&gb, PALETTE_GREY);
    begin_frame(&mut ppu, &mut gb);
    oam_search(&mut ppu, &gb, 0);
    assert_eq!(ppu.line_objects.len(), 5);
    pixel_transfer(&mut ppu, &mut gb, 0);
    // Object palette 0 is 0xff: every colour but 0 is the darkest shade.
    assert_eq!(gb.screen[0][0], PALETTE_GREY[3]);
    assert_eq!(gb.screen[0][1], PALETTE_GREY[0]);
    // Flipped in x.
    assert_eq!(gb.screen[0][32], PALETTE_GREY[0]);
    assert_eq!(gb.screen[0][39], PALETTE_GREY[3]);
    // Behind the background, which is of colour 3 from column 8 on.
    assert_eq!(gb.screen[0][8], PALETTE_GREY[3]);
    gb.io_ports.write(IO_BGP, 0b0110_0100);
    oam_search(&mut ppu, &gb, 0);
    pixel_transfer(&mut ppu, &mut gb, 0);
    assert_eq!(gb.screen[0][8], PALETTE_GREY[1]);
    // Over a background of the lightest shade.
    assert_eq!(gb.screen[0][72], PALETTE_GREY[3]);

    // Object 2 is flipped in y: its first row shows on its last line.
    oam_search(&mut ppu, &gb, 8);
    assert_eq!(ppu.line_objects.len(), 1);
    pixel_transfer(&mut ppu, &mut gb, 8);
    assert_eq!(gb.screen[8][52], PALETTE_GREY[3]);
    assert_eq!(gb.screen[8][53], PALETTE_GREY[0]);
    oam_search(&mut ppu, &gb, 1);
    pixel_transfer(&mut ppu, &mut gb, 1);
    assert_eq!(gb.screen[1][52], PALETTE_GREY[0]);
    // An object above line 16 of object space is not shown.
    put(&mut gb, 7, 15, 120, 3, 0);
    oam_search(&mut ppu, &gb, 0);
    assert_eq!(ppu.line_objects.len(), 5);

    // Sixteen lines high: the tile's number loses its lowest bit.
    gb.io_ports.write(IO_LCDC, LCDC_ON | LCDC_OBJ_DISP | LCDC_OBJ_SIZE | LCDC_TILE_DATA);
    put(&mut gb, 6, 16, 100, 3, 0);
    oam_search(&mut ppu, &gb, 8);
    pixel_transfer(&mut ppu, &mut gb, 8);
    assert_eq!(gb.screen[8][92], PALETTE_GREY[3]);
    oam_search(&mut ppu, &gb, 0);
    pixel_transfer(&mut ppu, &mut gb, 0);
    assert_eq!(gb.screen[0][92], PALETTE_GREY[3]);
    assert_eq!(gb.screen[0][93], PALETTE_GREY[0]);
}

#[test]
fn screen_as_bytes() {
    let mut line = [(0u8, 0u8, 0u8); 160];
    line[0] = (1, 2, 3);
    line[159] = (7, 8, 9);
    let mut buffer = vec![0xeeu8; 500];
    copy_line(&line, &mut buffer);
    assert_eq!(&buffer[0..6], &[1, 2, 3, 0, 0, 0]);
    assert_eq!(&buffer[477..480], &[7, 8, 9]);
    assert_eq!(&buffer[480..500], &[0xee; 20]);
}

#[test]
fn picture_of_video_ram() {
    let mut gb = machine();
    gb.vram[17 * 16 + 3 * 2] = 0b0100_0000;
    gb.vram[0x0800 + 17 * 16 + 3 * 2 + 1] = 0b0100_0000;
    let bgp = 0b1110_0100;
    // Tile 17 is the second tile of the second row of tiles.
    assert_eq!(viewer_pixel(&gb.vram, LCDC_TILE_DATA, bgp, &PALETTE_GREY, 9, 11), PALETTE_GREY[1]);
    assert_eq!(viewer_pixel(&gb.vram, 0, bgp, &PALETTE_GREY, 9, 11), PALETTE_GREY[2]);
    assert_eq!(viewer_pixel(&gb.vram, 0, bgp, &PALETTE_GREY, 8, 11), PALETTE_GREY[0]);
    assert_eq!(viewer_tile_at(LCDC_TILE_DATA, 9, 11), (17, 0x8000 + 17 * 16 + 6));
    assert_eq!(viewer_tile_at(0, 127, 127), (255, 0x8800 + 255 * 16 + 14));
}

#[test]
fn little_endian_numbers() {
    let bytes = [0x01u8, 0x02, 0x03, 0x04, 0x05, 0x06, 0x07, 0x08, 0x09];
    let mut i = 1;
    assert_eq!(read_u8(&bytes, &mut i), 0x02);
    assert_eq!(i, 2);
    assert_eq!(read_u16(&bytes, &mut i), 0x0403);
    assert_eq!(i, 4);
    i = 0;
    assert_eq!(read_u32(&bytes, &mut i), 0x04030201);
    assert_eq!(i, 4);
    i = 1;
    assert_eq!(read_u64(&bytes, &mut i), 0x0908070605040302);
    assert_eq!(i, 9);
}

#[test]
fn memory_range_beyond_the_file() {
    let bytes = [2u8, 0, 0, 0, 9, 0, 0, 0, 0xaa, 0xbb];
    let mut i = 0;
    let err = read_memory_range(&bytes, &mut i).unwrap_err();
    assert_eq!(i, 8);
    assert_eq!(
        err,
        "Invalid memory range: start+size points beyond file end (start: 9, size: 2, file length: 10)"
    );
    let bytes = [2u8, 0, 0, 0, 8, 0, 0, 0, 0xaa, 0xbb];
    let mut i = 0;
    assert_eq!(read_memory_range(&bytes, &mut i).unwrap(), &[0xaa, 0xbb]);

    let mut bytes = vec![0xffu8, 0xff, 0xff, 0xff, 0x00, 0x5e, 0xd0, 0xb2];
    bytes.resize(120, 0);
    let mut i = 0;
    assert_eq!(
        read_memory_range(&bytes, &mut i).unwrap_err(),
        "Invalid memory range: start+size points beyond file end (start: 3000000000, size: 4294967295, file length: 120)"
    );
}

#[test]
fn skipped_blocks_are_reported() {
    assert_eq!(skipped_blocks(b"BESS"), Vec::<String>::new());
    assert_eq!(skipped_blocks(&[0u8; 16]), Vec::<String>::new());
    let good = state_of(&[block(b"NAME", b"emulator"), info_block(), core_block(), end_block()]);
    assert_eq!(skipped_blocks(&good), Vec::<String>::new());

    // Two bad optional blocks, each passed over behind its length byte,
    // where the next identifier stands here.
    let bad_rtc = block(b"RTC ", &[]);
    let mut bad_mbc7 = block(b"MBC7", &[]);
    bad_mbc7[4] = 9;
    let bytes = state_of(&[info_block(), bad_rtc[0..5].to_vec(), core_block(), bad_mbc7[0..5].to_vec(), end_block()]);
    assert_eq!(
        skipped_blocks(&bytes),
        vec!["RTC block: Bad length".to_string(), "MBC7 block: Bad length".to_string()]
    );
    assert!(Bess::new(&bytes, "f").is_ok());

    // The listing ends where reading the file fails: at a bad mandatory
    // block and at an identifier that names no block.
    let mut bad_info = info_block();
    bad_info[4] = 0x13;
    let bytes = state_of(&[bad_rtc[0..5].to_vec(), bad_info, bad_mbc7[0..5].to_vec(), end_block(), vec![0u8; 0x40]]);
    assert_eq!(skipped_blocks(&bytes), vec!["RTC block: Bad length".to_string()]);
    let unknown = block(b"\x00\xff\x0a\x07", &[0u8; 0x40]);
    let bytes = state_of(&[bad_rtc[0..5].to_vec(), unknown, bad_mbc7[0..5].to_vec()]);
    assert_eq!(skipped_blocks(&bytes), vec!["RTC block: Bad length".to_string()]);
    assert_eq!(Bess::new(&bytes, "f").unwrap_err(), "Invalid identifier [0, 255, 10, 7]");

    // A block that the file has no room for cannot be passed over: its
    // complaint is the last.
    let bytes = state_of(&[bad_rtc[0..5].to_vec(), bad_mbc7[0..5].to_vec()]);
    assert_eq!(skipped_blocks(&bytes), vec!["RTC block: Not enough bytes".to_string()]);
    assert_eq!(Bess::new(&bytes, "f").unwrap_err(), "Missing END block");
}

#[test]
fn block_errors() {
    let mut i = 0;
    assert_eq!(
        Huc3Block::read(b"HUC3", &mut i).unwrap_err(),
        "HUC3 block: Not enough bytes"
    );
    assert_eq!(i, 0);
    let mut bytes = b"HUC4".to_vec();
    bytes.push(0x11);
    bytes.extend_from_slice(&[0u8; 17]);
    assert_eq!(Huc3Block::read(&bytes, &mut i).unwrap_err(), "HUC3 block: Bad identifier");
    assert_eq!(i, 0);
    bytes[3] = b'3';
    bytes[4] = 0x10;
    assert_eq!(Huc3Block::read(&bytes, &mut i).unwrap_err(), "HUC3 block: Bad length");
    assert_eq!(i, 5);
    bytes[4] = 0x11;
    bytes[21] = 2;
    i = 0;
    assert_eq!(
        Huc3Block::read(&bytes, &mut i).unwrap_err(),
        "HUC3 block: Bad value for alarm_enabled"
    );
    assert_eq!(i, 22);

    let mut bytes = b"SGB ".to_vec();
    bytes.push(0x39);
    for _ in 0..7 {
        bytes.extend_from_slice(&[1, 0, 0, 0, 0, 0, 0, 0]);
    }
    bytes.push(0x21);
    let mut i = 0;
    let block = SgbBlock::read(&bytes, &mut i).unwrap();
    assert_eq!(i, 62);
    assert_eq!(block.multiplayer_status, 0x21);
    assert_eq!(block.attribute_files, b"S");
    // The third range points beyond the file.
    bytes[5 + 16] = 0xff;
    let mut i = 0;
    assert!(SgbBlock::read(&bytes, &mut i).is_err());
    assert_eq!(i, 5 + 24);
}

fn block(tag: &[u8; 4], payload: &[u8]) -> Vec<u8> {
    let mut bytes = tag.to_vec();
    bytes.push(payload.len() as u8);
    bytes.extend_from_slice(payload);
    bytes
}

fn state_of(blocks: &[Vec<u8>]) -> Vec<u8> {
    let mut bytes = vec![0xffu8; 3];
    for b in blocks {
        bytes.extend_from_slice(b);
    }
    bytes.extend_from_slice(&[3, 0, 0, 0]);
    bytes.extend_from_slice(b"BESS");
    bytes
}

fn info_block() -> Vec<u8> {
    let mut payload = b"TETRIS\0\0\0\0\0\0\0\0\0\0".to_vec();
    payload.extend_from_slice(&[0xcd, 0xab]);
    block(b"INFO", &payload)
}

fn core_block() -> Vec<u8> {
    let mut payload = vec![0u8; 0xd0];
    payload[8] = 0x50;
    payload[9] = 0x01;
    block(b"CORE", &payload)
}

fn end_block() -> Vec<u8> {
    block(b"END ", &[])
}

#[test]
fn save_state_errors() {
    assert_eq!(Bess::new(b"BESS", "f").unwrap_err(), "File too short");
    assert_eq!(
        Bess::new(&[0u8; 16], "f").unwrap_err(),
        "Missing 'BESS' string at end of file"
    );
    assert_eq!(Bess::new(&state_of(&[info_block(), end_block()]), "f").unwrap_err(), "Missing CORE block");
    assert_eq!(Bess::new(&state_of(&[core_block(), end_block()]), "f").unwrap_err(), "Missing INFO block");
    assert_eq!(Bess::new(&state_of(&[info_block(), core_block()]), "f").unwrap_err(), "Missing END block");
    assert_eq!(Bess::new(&state_of(&[]), "f").unwrap_err(), "Missing END block");
    assert_eq!(
        Bess::new(&state_of(&[info_block(), block(b"WHAT", &[]), core_block(), end_block()]), "f").unwrap_err(),
        "Invalid identifier [87, 72, 65, 84]"
    );
    let mut bad_info = info_block();
    bad_info[4] = 0x13;
    assert_eq!(
        Bess::new(&state_of(&[bad_info, core_block(), end_block()]), "f").unwrap_err(),
        "INFO block: Bad length"
    );
    let mut bad_core = core_block();
    bad_core[5 + 152] = 0xff;
    bad_core[5 + 153] = 0xff;
    assert!(Bess::new(&state_of(&[info_block(), bad_core, end_block()]), "f")
        .unwrap_err()
        .starts_with("Invalid memory range"));
}

#[test]
fn save_state_optional_blocks() {
    let name = block(b"NAME", b"emulator 1.0");
    let mbc = block(b"MBC ", &[0x00, 0x20, 0x05, 0x00, 0x40, 0x01]);
    let mbc7 = block(b"MBC7", &[1, 2, 3, 0, 4, 0, 5, 0, 6, 0]);
    let bytes = state_of(&[name, info_block(), mbc, core_block(), mbc7, end_block()]);
    let bess = Bess::new(&bytes, "f").unwrap();
    assert_eq!(bess.name_block.unwrap().name, b"emulator 1.0");
    assert_eq!(bess.mbc_block.unwrap().registers, vec![(0x2000, 0x05), (0x4000, 0x01)]);
    assert_eq!(bess.mbc7_block.unwrap().latched_gyro_y, 6);
    assert_eq!(bess.core_block.pc, 0x0150);
    assert_eq!(&bess.info_block.title[0..6], b"TETRIS");
    assert_eq!(bess.info_block.checksum, 0xabcd);

    // A bad optional block is passed over: reading goes on behind its
    // length byte, where an end block stands here.
    let mut bad_xaom = block(b"XAOM", &[0u8; 0x60]);
    bad_xaom[4] = 4;
    let mut bytes = vec![0xffu8; 3];
    bytes.extend_from_slice(&info_block());
    bytes.extend_from_slice(&core_block());
    bytes.extend_from_slice(&bad_xaom[0..5]);
    bytes.extend_from_slice(&end_block());
    bytes.extend_from_slice(&[0u8; 0x60]);
    bytes.extend_from_slice(&[3, 0, 0, 0]);
    bytes.extend_from_slice(b"BESS");
    let bess = Bess::new(&bytes, "f").unwrap();
    assert!(bess.xaom_block.is_none());
    assert_eq!(skipped_blocks(&bytes), vec!["XAOM block: Bad length".to_string()]);

    // A later block of a kind replaces an earlier one.
    let bytes = state_of(&[
        block(b"NAME", b"first"),
        info_block(),
        core_block(),
        block(b"NAME", b"second"),
        end_block(),
    ]);
    assert_eq!(Bess::new(&bytes, "f").unwrap().name_block.unwrap().name, b"second");
}

#[test]
fn a_frame_runs_through_its_phases() {
    let mut gb = machine();
    let mut ppu = Ppu::new(&gb, PALETTE_GREY);
    gb.io_ports.write(IO_LY, 99);
    gb.io_ports.write(IO_STAT, STAT_INT_M00);

    let mut phase = Phase::FrameStart;
    let mut steps = 0;
    let mut wakes = 0;
    let mut held: u64 = 0;
    loop {
        assert!(phase.is_ready(&ppu));
        let step = run_phase(&mut ppu, &mut gb, phase);
        steps += 1;
        if step.interrupted {
            wakes += 1;
        }
        let expected_hold = match phase {
            Phase::FrameStart | Phase::LineEnd(_) | Phase::VBlankLine(9) => Hold::Nothing,
            Phase::OamSearch(_) => Hold::Remainder(19_000),
            Phase::PixelTransfer(_) => Hold::Remainder(41_000),
            Phase::HBlank(_) => Hold::Whole(48_600),
            Phase::VBlank | Phase::VBlankLine(_) => Hold::Whole(108_718),
        };
        assert_eq!(step.hold, expected_hold);
        match step.hold {
            Hold::Nothing => {}
            Hold::Remainder(nanos) | Hold::Whole(nanos) => held += nanos,
        }
        match phase {
            Phase::OamSearch(y) => {
                assert_eq!(gb.io_ports.read(IO_LY), y);
                assert_eq!(gb.io_ports.read(IO_STAT) & 3, 2);
                assert_eq!(step.next, Phase::PixelTransfer(y));
            }
            Phase::PixelTransfer(y) => {
                assert_eq!(gb.io_ports.read(IO_STAT) & 3, 3);
                assert_eq!(step.next, Phase::HBlank(y));
            }
            Phase::HBlank(y) => {
                assert_eq!(gb.io_ports.read(IO_STAT) & 3, 0);
                assert!(step.interrupted);
                assert_eq!(step.next, Phase::LineEnd(y));
            }
            Phase::LineEnd(y) => assert_eq!(gb.io_ports.read(IO_LY), y + 1),
            Phase::VBlank => {
                assert_eq!(gb.io_ports.read(IO_STAT) & 3, 1);
                assert_eq!(gb.io_ports.read(IO_LY), 144);
                assert!(step.interrupted);
                assert_eq!(gb.io_ports.read(IO_IF), INT_VBLANK | INT_LCDC);
            }
            Phase::VBlankLine(k) => assert_eq!(gb.io_ports.read(IO_LY), 145 + k),
            Phase::FrameStart => assert_eq!(gb.io_ports.read(IO_LY), 0),
        }
        phase = step.next;
        if phase == Phase::FrameStart {
            break;
        }
    }
    assert_eq!(steps, 1 + 4 * 144 + 1 + 10);
    assert_eq!(wakes, 144 + 1);
    assert_eq!(gb.io_ports.read(IO_LY), 154);
    assert_eq!(held, 144 * (19_000 + 41_000 + 48_600) + 10 * 108_718);

    // The phases follow one another as stated.
    assert_eq!(run_phase(&mut ppu, &mut gb, Phase::FrameStart).next, Phase::OamSearch(0));
    assert_eq!(run_phase(&mut ppu, &mut gb, Phase::LineEnd(0)).next, Phase::OamSearch(1));
    assert_eq!(run_phase(&mut ppu, &mut gb, Phase::LineEnd(143)).next, Phase::VBlank);
    assert_eq!(run_phase(&mut ppu, &mut gb, Phase::VBlank).next, Phase::VBlankLine(0));
    assert_eq!(run_phase(&mut ppu, &mut gb, Phase::VBlankLine(8)).next, Phase::VBlankLine(9));
    assert_eq!(run_phase(&mut ppu, &mut gb, Phase::VBlankLine(9)).next, Phase::FrameStart);

    // A phase of a line that does not exist cannot be entered, nor one
    // that the window's line counter has run ahead of.
    assert!(!Phase::OamSearch(144).is_ready(&ppu));
    assert!(!Phase::VBlankLine(10).is_ready(&ppu));
    ppu.curr_window_line = 5;
    assert!(!Phase::PixelTransfer(4).is_ready(&ppu));
    assert!(Phase::PixelTransfer(5).is_ready(&ppu));
    assert!(Phase::HBlank(4).is_ready(&ppu));
    assert!(!Phase::LineEnd(3).is_ready(&ppu));
}
