use gameboy::bess::read_header;
use gameboy::cartridge::{classify_header, fill_rom, load_cartridge, CartridgeLoadErr, MbcType};
use gameboy::cpu::exec::{
    compute_add_sub, compute_carry_flag, compute_half_carry_flag, compute_shift, compute_zero_flag,
    daa_lookup, pack_flags, Shift,
};
use gameboy::cpu::instruction::{split_u16, AddSub, Dst8, Instr, Src8};
use gameboy::cpu::run::{has_breakpoint, pick_interrupt};
use gameboy::cpu::step::{decode_prefixed, execute, reg_encoding_to_dst, reg_encoding_to_src};
use gameboy::debug::{find_char, same_text, DebugCmd};
use gameboy::fault::Fault;
use gameboy::gameboy::{
    set_flag, test_flag, Gameboy, FLAG_C, FLAG_H, FLAG_N, FLAG_Z, INT_HILO, INT_LCDC, INT_SERIAL,
    INT_TIMER, INT_VBLANK, IO_IF, RA, RB, RHL,
};
use gameboy::ppu::{has_priority, object_covers, raise_interrupt, read_object, search_oam, ObjAttr};

fn machine() -> Gameboy {
    Gameboy::new(load_cartridge(&vec![0u8; 0x8000]).unwrap())
}

#[test]
fn flag_bytes() {
    assert_eq!(compute_zero_flag(0), FLAG_Z);
    assert_eq!(compute_zero_flag(1), 0);
    assert_eq!(compute_half_carry_flag(0x0f, 0x01), FLAG_H);
    assert_eq!(compute_half_carry_flag(0xf0, 0xf0), 0);
    assert_eq!(compute_carry_flag(0xf0, 0x10), FLAG_C);
    assert_eq!(compute_carry_flag(0xf0, 0x0f), 0);
    assert_eq!(pack_flags(true, false, true, false), FLAG_Z | FLAG_H);
    assert_eq!(pack_flags(false, true, false, true), FLAG_N | FLAG_C);
    assert_eq!(pack_flags(false, false, false, false), 0);
    assert!(test_flag(0x90, FLAG_Z) && test_flag(0x90, FLAG_C));
    assert!(!test_flag(0x90, FLAG_N) && !test_flag(0x90, FLAG_H));
    assert_eq!(set_flag(0x03, FLAG_N, true), 0x43);
    assert_eq!(set_flag(0xff, FLAG_H, false), 0xdf);
    assert_eq!(split_u16(0xbeef), (0xbe, 0xef));
}

#[test]
fn sums_and_shifts() {
    assert_eq!(compute_add_sub(0xff, 0x01, AddSub::Add), (0x00, FLAG_Z | FLAG_H | FLAG_C));
    assert_eq!(compute_add_sub(0x00, 0x100, AddSub::Add), (0x00, FLAG_Z | FLAG_C));
    assert_eq!(compute_add_sub(0x10, 0x01, AddSub::Sub), (0x0f, FLAG_N | FLAG_H));
    assert_eq!(compute_shift(Shift::Rlc, 0x85, false), (0x0b, true));
    assert_eq!(compute_shift(Shift::Rrc, 0x85, false), (0xc2, true));
    assert_eq!(compute_shift(Shift::Rl, 0x85, false), (0x0a, true));
    assert_eq!(compute_shift(Shift::Rl, 0x05, true), (0x0b, false));
    assert_eq!(compute_shift(Shift::Rr, 0x84, true), (0xc2, false));
    assert_eq!(compute_shift(Shift::Sla, 0x85, true), (0x0a, true));
    assert_eq!(compute_shift(Shift::Sra, 0x85, true), (0xc2, true));
    assert_eq!(compute_shift(Shift::Srl, 0x85, true), (0x42, true));
    assert_eq!(daa_lookup(false, false, false, 0x0, 0xa), Some((0x06, false)));
    assert_eq!(daa_lookup(true, true, true, 0x6, 0x6), Some((0x9a, false)));
    assert_eq!(daa_lookup(true, true, true, 0x5, 0x6), None);
}

#[test]
fn decoding_helpers() {
    assert_eq!(reg_encoding_to_dst(0), Dst8::R8(RB));
    assert_eq!(reg_encoding_to_dst(6), Dst8::Id(RHL));
    assert_eq!(reg_encoding_to_dst(7), Dst8::R8(RA));
    assert_eq!(reg_encoding_to_src(6), Src8::Id(RHL));
    assert_eq!(reg_encoding_to_src(7), Src8::R8(RA));
    assert_eq!(decode_prefixed(0x46), Instr::Bit(0, Dst8::Id(RHL)));
    assert_eq!(decode_prefixed(0x3f), Instr::Srl(Dst8::R8(RA)));

    let mut gb = machine();
    gb.regs[RB] = 0x0f;
    assert_eq!(execute(&mut gb, Instr::Inc(Dst8::R8(RB))), Ok(()));
    assert_eq!(gb.regs[RB], 0x10);
    assert_eq!(gb.pc, 0x0100);
    assert_eq!(gb.cycles, 0);
    gb.regs[gameboy::gameboy::RH] = 0x20;
    assert_eq!(
        execute(&mut gb, Instr::Inc(Dst8::Id(RHL))),
        Err(Fault::RomWrite(0x2000))
    );
}

#[test]
fn interrupts_in_order() {
    assert_eq!(pick_interrupt(0), None);
    assert_eq!(pick_interrupt(0b1110_0000), None);
    assert_eq!(pick_interrupt(0b0001_1111), Some((INT_VBLANK, 0x40)));
    assert_eq!(pick_interrupt(0b0001_1110), Some((INT_LCDC, 0x48)));
    assert_eq!(pick_interrupt(0b0001_1100), Some((INT_TIMER, 0x50)));
    assert_eq!(pick_interrupt(0b0001_1000), Some((INT_SERIAL, 0x58)));
    assert_eq!(pick_interrupt(0b0001_0000), Some((INT_HILO, 0x60)));
    assert!(has_breakpoint(&vec![1, 2, 3], 3));
    assert!(!has_breakpoint(&vec![1, 2, 3], 4));
    assert!(!has_breakpoint(&vec![], 0));

    let mut gb = machine();
    gb.io_ports.write(IO_IF, INT_TIMER);
    raise_interrupt(&mut gb, INT_LCDC);
    assert_eq!(gb.io_ports.read(IO_IF), INT_TIMER | INT_LCDC);
    assert!(gb.interrupt_received);
}

#[test]
fn cartridge_helpers() {
    assert_eq!(classify_header(0x00), Ok((MbcType::NoMbc, false)));
    assert_eq!(classify_header(0x09), Ok((MbcType::NoMbc, true)));
    assert_eq!(classify_header(0x03), Ok((MbcType::Mbc1, true)));
    assert_eq!(classify_header(0x06), Ok((MbcType::Mbc2, true)));
    assert_eq!(classify_header(0x11), Ok((MbcType::Mbc3, false)));
    assert_eq!(classify_header(0x1b), Ok((MbcType::Mbc5, true)));
    assert_eq!(classify_header(0x0c), Err(CartridgeLoadErr::UnsupportedCartridgeType(0x0c)));
    assert_eq!(classify_header(0x21), Err(CartridgeLoadErr::InvalidCartridgeType(0x21)));
    assert_eq!(fill_rom(&[1, 2, 3], 5), vec![1, 2, 3, 0, 0]);
    assert_eq!(fill_rom(&[], 2), vec![0, 0]);
}

#[test]
fn objects_of_a_line() {
    let mut oam = [0u8; 0xa0];
    oam[4 * 5..4 * 5 + 4].copy_from_slice(&[20, 30, 7, 0x10]);
    oam[4 * 9..4 * 9 + 4].copy_from_slice(&[24, 10, 8, 0x00]);
    let five = read_object(&oam, 5);
    assert_eq!(five, ObjAttr { y: 20, x: 30, tile_number: 7, flags: 0x10 });
    assert!(object_covers(five, 4, false));
    assert!(object_covers(five, 11, false));
    assert!(!object_covers(five, 12, false));
    assert!(object_covers(five, 19, true));
    assert!(!object_covers(five, 20, true));
    assert!(!object_covers(five, 3, true));
    assert!(!object_covers(ObjAttr { y: 15, ..five }, 0, true));
    let nine = read_object(&oam, 9);
    assert!(has_priority((9, nine), (5, five)));
    assert!(!has_priority((5, five), (9, nine)));
    assert!(has_priority((5, five), (9, five)));
    assert!(!has_priority((5, five), (5, five)));

    // Both cover line 8; object 9 lies further left and is painted last.
    let line = search_oam(&oam, 8, false);
    assert_eq!(line, vec![(5, five), (9, nine)]);
    assert_eq!(search_oam(&oam, 4, false), vec![(5, five)]);
    assert_eq!(search_oam(&oam, 30, true), vec![]);
}

#[test]
fn texts() {
    assert!(same_text("abc", "abc"));
    assert!(!same_text("abc", "abd"));
    assert!(!same_text("abc", "ab"));
    assert!(same_text("", ""));
    assert_eq!(find_char("a+b+c", '+', 0), 1);
    assert_eq!(find_char("a+b+c", '+', 2), 3);
    assert_eq!(find_char("a+b+c", '+', 4), 5);
    assert_eq!(find_char("abc", '+', 0), 3);
    assert_eq!(DebugCmd::parse("sva"), Ok(DebugCmd::StackViewAll));
    assert_eq!(DebugCmd::parse(" c"), Err("Unknown command".to_string()));

    let mut i = 2;
    assert_eq!(read_header(b"..RTC \x30", &mut i, b"RTC ", "RTC", 0, false), Ok(0x30));
    assert_eq!(i, 7);
    let mut i = 0;
    assert_eq!(
        read_header(b"RTC \x31", &mut i, b"RTC ", "RTC", 0x31, true),
        Err("RTC block: Not enough bytes".to_string())
    );
}
