use gameboy::cartridge::{can_load, load_cartridge, Cartridge, CartridgeLoadErr, CartridgeT};
use gameboy::cpu::exec;
use gameboy::cpu::instruction::{Accesses, Cond, Dst16, Dst8, IncDec, Instr, Src16, Src8};
use gameboy::cpu::run::{check_breakpoint, pacing_nanos, prepare, wake, Readiness};
use gameboy::cpu::step::{decode, decode_bytes, step};
use gameboy::fault::Fault;
use gameboy::gameboy::{
    reserved, rr_to_u16, Gameboy, FLAG_C, FLAG_H, FLAG_N, FLAG_Z, INT_HILO, INT_TIMER, INT_VBLANK, IO_IE, IO_IF,
    IO_P1, IO_TAC, IO_TIMA, IO_TMA, RA, RB, RBC, RC, RD, RDE, RE, RF, RH, RHL, RL,
};
use gameboy::joypad::{controller_data, update_controller, Buttons};
use gameboy::timer::Timer;
use gameboy::utils::sleep_budget_nanos;

fn rom_with(cartridge_type: u8, code: &[u8]) -> Vec<u8> {
    let mut rom = vec![0u8; 0x8000];
    rom[0x147] = cartridge_type;
    for (i, byte) in code.iter().enumerate() {
        rom[0x0100 + i] = *byte;
    }
    rom
}

fn machine(code: &[u8]) -> Gameboy {
    Gameboy::new(load_cartridge(&rom_with(0, code)).unwrap())
}

#[test]
fn power_on_state() {
    let gb = machine(&[]);
    assert_eq!(gb.pc, 0x0100);
    assert_eq!(gb.sp, 0xfffe);
    assert_eq!(gb.cycles, 0);
    assert_eq!(gb.regs, [0; 8]);
    assert!(!gb.ime && !gb.halted && !gb.stopped);
    assert_eq!(gb.read(0xff00).unwrap(), 0xcf);
    assert_eq!(gb.read(0xff40).unwrap(), 0x91);
    assert_eq!(gb.read(0xff47).unwrap(), 0xfc);
    assert_eq!(gb.read(0xff48).unwrap(), 0xff);
    assert_eq!(gb.read(0xff49).unwrap(), 0xff);
    assert_eq!(gb.read(0xff41).unwrap(), 0x00);
    assert_eq!(gb.controller_data, 0xff);
    assert_eq!(gb.debug.stack_base, 0xfffe);
    assert!(gb.debug.breakpoints.is_empty());
}

#[test]
fn every_address_has_one_region() {
    let mut gb = machine(&[]);
    // Work RAM and its mirror.
    gb.write(0xc123, 0x11).unwrap();
    assert_eq!(gb.read(0xe123).unwrap(), 0x11);
    gb.write(0xfdff, 0x22).unwrap();
    assert_eq!(gb.read(0xddff).unwrap(), 0x22);
    // Video RAM, object memory, high RAM, cartridge RAM.
    gb.write(0x8000, 0x33).unwrap();
    gb.write(0x9fff, 0x34).unwrap();
    gb.write(0xfe00, 0x44).unwrap();
    gb.write(0xfe9f, 0x45).unwrap();
    gb.write(0xff80, 0x55).unwrap();
    gb.write(0xfffe, 0x56).unwrap();
    gb.write(0xa000, 0x66).unwrap();
    gb.write(0xbfff, 0x67).unwrap();
    assert_eq!(gb.vram[0], 0x33);
    assert_eq!(gb.vram[0x1fff], 0x34);
    assert_eq!(gb.oam[0], 0x44);
    assert_eq!(gb.oam[0x9f], 0x45);
    assert_eq!(gb.hram[0], 0x55);
    assert_eq!(gb.hram[0x7e], 0x56);
    assert_eq!(gb.read(0xa000).unwrap(), 0x66);
    assert_eq!(gb.read(0xbfff).unwrap(), 0x67);
    // The reserved windows.
    for addr in [0xfea0u16, 0xfeff, 0xff4c, 0xff7f] {
        gb.write(addr, 0x77).unwrap();
        assert_eq!(gb.read(addr).unwrap(), 0xff);
    }
    // Interrupt enable.
    gb.write(0xffff, 0x1f).unwrap();
    assert_eq!(gb.io_ports.read(IO_IE), 0x1f);
    assert_eq!(gb.read(0xffff).unwrap(), 0x1f);
    // ROM reads, and refuses writes.
    assert_eq!(gb.read(0x0147).unwrap(), 0x00);
    assert_eq!(gb.write(0x2000, 1), Err(Fault::RomWrite(0x2000)));
}

#[test]
fn p1_write_selects_button_lines() {
    let mut gb = machine(&[]);
    gb.controller_data = 0b1010_0110;
    gb.write(0xff00, 0b0001_0000).unwrap();
    assert_eq!(gb.io_ports.read(IO_P1), 0b0001_0110);
    gb.write(0xff00, 0b0010_0000).unwrap();
    assert_eq!(gb.io_ports.read(IO_P1), 0b0010_1010);
    gb.write(0xff00, 0b1111_0000).unwrap();
    assert_eq!(gb.io_ports.read(IO_P1), 0b0011_1111);
}

#[test]
fn tac_write_enables_timer() {
    let mut gb = machine(&[]);
    let timer = Timer::new();
    assert!(timer.rests(&gb));
    gb.write(0xff07, 0b0000_0001).unwrap();
    assert!(!gb.timer_enabled);
    assert!(timer.rests(&gb));
    gb.write(0xff07, 0b0000_0101).unwrap();
    assert!(gb.timer_enabled);
    assert!(!timer.rests(&gb));
    assert_eq!(gb.io_ports.read(IO_TAC), 0b0000_0101);
    assert_eq!(timer.delay_nanos(&gb), 1_000_000_000 / 262_144);
    gb.io_ports.write(IO_TAC, 0);
    assert_eq!(timer.delay_nanos(&gb), 1_000_000_000 / 4096);
    gb.io_ports.write(IO_TAC, 2);
    assert_eq!(timer.delay_nanos(&gb), 1_000_000_000 / 65_536);
    gb.io_ports.write(IO_TAC, 3);
    assert_eq!(timer.delay_nanos(&gb), 1_000_000_000 / 16_384);
}

#[test]
fn timer_overflow_reloads_and_interrupts() {
    let mut gb = machine(&[]);
    let timer = Timer::new();
    gb.io_ports.write(IO_TIMA, 0xfe);
    gb.io_ports.write(IO_TMA, 0x42);

    assert!(!timer.pulse(&mut gb));
    assert_eq!(gb.io_ports.read(IO_TIMA), 0xff);
    assert_eq!(gb.io_ports.read(IO_IF), 0);

    assert!(timer.pulse(&mut gb));
    assert_eq!(gb.io_ports.read(IO_TIMA), 0x42);
    assert_eq!(gb.io_ports.read(IO_IF), INT_TIMER);
    assert!(gb.interrupt_received);

    // The interrupt is raised while interrupts are disabled and none is
    // enabled, and beside what is pending already.
    let mut gb = machine(&[]);
    gb.io_ports.write(IO_TIMA, 0xff);
    gb.io_ports.write(IO_IF, INT_VBLANK);
    gb.io_ports.write(IO_IE, 0);
    gb.ime = false;
    assert!(timer.pulse(&mut gb));
    assert_eq!(gb.io_ports.read(IO_TIMA), 0x00);
    assert_eq!(gb.io_ports.read(IO_IF), INT_VBLANK | INT_TIMER);
    assert_eq!(gb.io_ports.read(IO_IE), 0);
    assert!(gb.interrupt_received);
}

#[test]
fn io_port_operations() {
    let mut gb = machine(&[]);
    gb.io_ports.write(0x10, 0b1100_1010);
    gb.io_ports.and(0x10, 0b1010_1010);
    assert_eq!(gb.io_ports.read(0x10), 0b1000_1010);
    gb.io_ports.or(0x10, 0b0000_0101);
    assert_eq!(gb.io_ports.read(0x10), 0b1000_1111);
    gb.io_ports.xor(0x10, 0b1111_1111);
    assert_eq!(gb.io_ports.read(0x10), 0b0111_0000);
    gb.io_ports.add(0x10, 0xa0);
    assert_eq!(gb.io_ports.read(0x10), 0x10);
}

#[test]
fn controller_lines_and_interrupt() {
    let none = Buttons {
        right: false,
        left: false,
        up: false,
        down: false,
        a: false,
        b: false,
        select: false,
        start: false,
    };
    assert_eq!(controller_data(none), 0xff);
    assert_eq!(controller_data(Buttons { a: true, ..none }), 0b1111_1110);
    assert_eq!(controller_data(Buttons { b: true, ..none }), 0b1111_1101);
    assert_eq!(controller_data(Buttons { select: true, ..none }), 0b1111_1011);
    assert_eq!(controller_data(Buttons { start: true, ..none }), 0b1111_0111);
    assert_eq!(controller_data(Buttons { right: true, ..none }), 0b1110_1111);
    assert_eq!(controller_data(Buttons { left: true, ..none }), 0b1101_1111);
    assert_eq!(controller_data(Buttons { up: true, ..none }), 0b1011_1111);
    assert_eq!(controller_data(Buttons { down: true, ..none }), 0b0111_1111);

    let mut gb = machine(&[]);
    assert!(update_controller(&mut gb, 0b1111_1110));
    assert_eq!(gb.controller_data, 0b1111_1110);
    assert_eq!(gb.io_ports.read(IO_IF), INT_HILO);
    assert!(gb.interrupt_received);
    // Holding a button, or letting it go, raises nothing.
    gb.io_ports.write(IO_IF, 0);
    assert!(!update_controller(&mut gb, 0b1111_1110));
    assert!(!update_controller(&mut gb, 0b1111_1111));
    assert_eq!(gb.io_ports.read(IO_IF), 0);
    // A new press interrupts while interrupts are disabled and none is
    // enabled.
    gb.ime = false;
    gb.io_ports.write(IO_IE, 0);
    assert!(update_controller(&mut gb, 0b1111_0000));
    assert_eq!(gb.io_ports.read(IO_IF), INT_HILO);
}

#[test]
fn header_byte_selects_controller() {
    for invalid in [0x04u8, 0x07, 0x0a, 0x14, 0x18, 0x20, 0xfc, 0xff] {
        assert_eq!(
            load_cartridge(&rom_with(invalid, &[])).err(),
            Some(CartridgeLoadErr::InvalidCartridgeType(invalid))
        );
    }
    for unsupported in [0x0bu8, 0x0e, 0x1f, 0xfd, 0xfe, 0x19, 0x1b, 0x1e] {
        assert_eq!(
            load_cartridge(&rom_with(unsupported, &[])).err(),
            Some(CartridgeLoadErr::UnsupportedCartridgeType(unsupported))
        );
    }
    assert!(matches!(load_cartridge(&rom_with(0x00, &[])), Ok(Cartridge::NoMbc(_))));
    assert!(matches!(load_cartridge(&rom_with(0x08, &[])), Ok(Cartridge::NoMbc(_))));
    assert!(matches!(load_cartridge(&rom_with(0x01, &[])), Ok(Cartridge::Mbc1(_))));
    assert!(matches!(load_cartridge(&rom_with(0x03, &[])), Ok(Cartridge::Mbc1(_))));
    assert!(matches!(load_cartridge(&rom_with(0x05, &[])), Ok(Cartridge::Mbc2(_))));
    assert!(matches!(load_cartridge(&rom_with(0x0f, &[])), Ok(Cartridge::Mbc3(_))));
    assert!(matches!(load_cartridge(&rom_with(0x13, &[])), Ok(Cartridge::Mbc3(_))));
}

#[test]
fn mbc1_switches_banks() {
    let mut rom = vec![0u8; 4 * 0x4000];
    rom[0x147] = 0x01;
    rom[0x4000] = 0x11;
    rom[2 * 0x4000] = 0x22;
    rom[3 * 0x4000 + 5] = 0x33;
    let mut cartridge = load_cartridge(&rom).unwrap();
    assert_eq!(cartridge.read_rom(0x0147), Ok(0x01));
    assert_eq!(cartridge.read_rom(0x4000), Ok(0x11));
    cartridge.write_rom(0x2000, 2).unwrap();
    assert_eq!(cartridge.read_rom(0x4000), Ok(0x22));
    cartridge.write_rom(0x2000, 3).unwrap();
    assert_eq!(cartridge.read_rom(0x4005), Ok(0x33));
    cartridge.write_rom(0x2000, 0).unwrap();
    assert_eq!(cartridge.read_rom(0x4000), Ok(0x11));
    // Past the last bank there is nothing to read.
    cartridge.write_rom(0x2000, 0xff).unwrap();
    assert_eq!(cartridge.read_rom(0x4000), Err(Fault::RomRead(0x4000)));
    assert_eq!(cartridge.write_rom(0x8000, 0), Err(Fault::RomWrite(0x8000)));

    // RAM is protected until it is opened.
    assert_eq!(cartridge.read_ram(0xa000), Ok(0xff));
    assert_eq!(cartridge.write_ram(0xa000, 1), Err(Fault::RamWrite(0xa000)));
    cartridge.write_rom(0x0000, 0xa0).unwrap();
    cartridge.write_ram(0xa010, 0x5a).unwrap();
    assert_eq!(cartridge.read_ram(0xa010), Ok(0x5a));
    cartridge.write_rom(0x4000, 1).unwrap();
    assert_eq!(cartridge.read_ram(0xa010), Ok(0x00));
    cartridge.write_rom(0x4000, 0).unwrap();
    assert_eq!(cartridge.read_ram(0xa010), Ok(0x5a));
    assert_eq!(cartridge.read_ram(0x9fff), Err(Fault::RamRead(0x9fff)));
}

#[test]
fn mbc2_keeps_four_bits() {
    let mut rom = vec![0u8; 2 * 0x4000];
    rom[0x147] = 0x05;
    rom[0x4000] = 0x44;
    rom[7] = 0x07;
    let mut cartridge = load_cartridge(&rom).unwrap();
    // Bank 0 is selected at first.
    assert_eq!(cartridge.read_rom(0x4007), Ok(0x07));
    cartridge.write_rom(0x2100, 0xf1).unwrap();
    assert_eq!(cartridge.read_rom(0x4000), Ok(0x44));
    assert_eq!(cartridge.write_rom(0x1000, 0), Err(Fault::RomWrite(0x1000)));
    assert_eq!(cartridge.read_ram(0xa000), Ok(0xff));
    cartridge.write_rom(0x0000, 0x0a).unwrap();
    cartridge.write_ram(0xa1ff, 0xab).unwrap();
    assert_eq!(cartridge.read_ram(0xa1ff), Ok(0x0b));
    assert_eq!(cartridge.read_ram(0xa200), Err(Fault::RamRead(0xa200)));
    assert_eq!(cartridge.write_ram(0xa200, 0), Err(Fault::RamWrite(0xa200)));
}

#[test]
fn mbc3_clock_registers() {
    let mut rom = vec![0u8; 0x8000];
    rom[0x147] = 0x0f;
    rom[0x10] = 0x99;
    let mut cartridge = load_cartridge(&rom).unwrap();
    assert_eq!(cartridge.read_rom(0x0010), Ok(0x99));
    assert_eq!(cartridge.read_ram(0xa000), Ok(0xff));
    cartridge.write_rom(0x0000, 0x0a).unwrap();
    cartridge.write_rom(0x4000, 0x08).unwrap();
    cartridge.write_ram(0xa000, 42).unwrap();
    assert_eq!(cartridge.read_ram(0xa000), Ok(42));
    cartridge.write_rom(0x4000, 0x0c).unwrap();
    assert_eq!(cartridge.read_ram(0xa000), Ok(0));
    cartridge.write_rom(0x4000, 0x04).unwrap();
    assert_eq!(cartridge.read_ram(0xa000), Err(Fault::RamRead(0xa000)));
    assert_eq!(cartridge.write_ram(0xa000, 1), Err(Fault::RamWrite(0xa000)));
    assert_eq!(cartridge.write_rom(0x6000, 1), Err(Fault::RomWrite(0x6000)));
}

#[test]
fn undefined_opcodes_fault() {
    let undefined = [0xd3u8, 0xdb, 0xdd, 0xe3, 0xe4, 0xeb, 0xec, 0xed, 0xf4, 0xfc, 0xfd];
    for opcode in 0..=255u8 {
        let decoded = decode_bytes(opcode, 0x12, 0x34);
        assert_eq!(decoded.is_none(), undefined.contains(&opcode));
    }
    let mut gb = machine(&[0xd3]);
    assert_eq!(decode(&gb, 0x0100), Err(Fault::InvalidOpcode(0x0100, 0xd3)));
    assert_eq!(step(&mut gb), Err(Fault::InvalidOpcode(0x0100, 0xd3)));
    assert_eq!(gb.pc, 0x0100);
    assert_eq!(gb.cycles, 0);
}

#[test]
fn decode_at_the_end_of_memory_faults() {
    let mut gb = machine(&[]);
    assert_eq!(decode(&gb, 0xfffe), Err(Fault::DecodeOutOfBounds(0xfffe)));
    assert_eq!(decode(&gb, 0xffff), Err(Fault::DecodeOutOfBounds(0xffff)));
    gb.write(0xfffd, 0x00).unwrap();
    assert_eq!(decode(&gb, 0xfffd), Ok(Instr::Nop));
    gb.pc = 0xfffe;
    assert_eq!(step(&mut gb), Err(Fault::DecodeOutOfBounds(0xfffe)));
}

#[test]
fn decode_exact_values() {
    assert_eq!(decode_bytes(0x00, 0, 0), Some(Instr::Nop));
    assert_eq!(decode_bytes(0x01, 0x34, 0x12), Some(Instr::Ld16(Dst16::R16(RBC), Src16::D16(0x1234))));
    assert_eq!(decode_bytes(0x41, 0, 0), Some(Instr::Ld(Dst8::R8(RB), Src8::R8(RC))));
    assert_eq!(decode_bytes(0x46, 0, 0), Some(Instr::Ld(Dst8::R8(RB), Src8::Id(RHL))));
    assert_eq!(decode_bytes(0x70, 0, 0), Some(Instr::Ld(Dst8::Id(RHL), Src8::R8(RB))));
    assert_eq!(decode_bytes(0x76, 0, 0), Some(Instr::Halt));
    assert_eq!(decode_bytes(0x7f, 0, 0), Some(Instr::Ld(Dst8::R8(RA), Src8::R8(RA))));
    assert_eq!(decode_bytes(0x86, 0, 0), Some(Instr::Add(Src8::Id(RHL))));
    assert_eq!(decode_bytes(0xbf, 0, 0), Some(Instr::Cp(Src8::R8(RA))));
    assert_eq!(decode_bytes(0x18, 0xfe, 0), Some(Instr::Jr(-2)));
    assert_eq!(decode_bytes(0xc3, 0x50, 0x01), Some(Instr::Jp(Src16::D16(0x0150))));
    assert_eq!(decode_bytes(0xcb, 0x00, 0), Some(Instr::Rlc(Dst8::R8(RB))));
    assert_eq!(decode_bytes(0xcb, 0x36, 0), Some(Instr::Swap(Dst8::Id(RHL))));
    assert_eq!(decode_bytes(0xcb, 0x7c, 0), Some(Instr::Bit(7, Dst8::R8(RH))));
    assert_eq!(decode_bytes(0xcb, 0x87, 0), Some(Instr::Res(0, Dst8::R8(RA))));
    assert_eq!(decode_bytes(0xcb, 0xfe, 0), Some(Instr::SetBit(7, Dst8::Id(RHL))));
    assert_eq!(decode_bytes(0xf8, 0x80, 0), Some(Instr::Ld16(Dst16::R16(RHL), Src16::SPD8(-128))));
    assert_eq!(decode_bytes(0xff, 0, 0), Some(Instr::Rst(0x38)));
}

#[test]
fn prefixed_operand_is_chosen_by_low_bits() {
    let operands = [
        Dst8::R8(RB),
        Dst8::R8(RC),
        Dst8::R8(RD),
        Dst8::R8(RE),
        Dst8::R8(RH),
        Dst8::R8(RL),
        Dst8::Id(RHL),
        Dst8::R8(RA),
    ];
    for n in 0..=255u8 {
        let operand = match decode_bytes(0xcb, n, 0).unwrap() {
            Instr::Rlc(d)
            | Instr::Rrc(d)
            | Instr::Rl(d)
            | Instr::Rr(d)
            | Instr::Sla(d)
            | Instr::Sra(d)
            | Instr::Swap(d)
            | Instr::Srl(d) => d,
            Instr::Bit(bt, d) | Instr::Res(bt, d) | Instr::SetBit(bt, d) => {
                assert_eq!(bt, (n >> 3) & 7);
                d
            }
            other => panic!("{:?} is no prefixed instruction", other),
        };
        assert_eq!(operand, operands[(n & 7) as usize]);
    }
}

#[test]
fn costs_and_lengths() {
    let mut gb = machine(&[]);
    let call = Instr::CallCC(Cond::C, 0x1234);
    let ret = Instr::RetCC(Cond::Nz);
    let jp = Instr::JpCC(Cond::Z, 0x1234);
    let jr = Instr::JrCC(Cond::Nc, 5);
    // No flag set: C and Z fail, NZ and NC hold.
    assert_eq!((call.num_cycles(&gb), call.size(&gb)), (3, 3));
    assert_eq!((ret.num_cycles(&gb), ret.size(&gb)), (5, 0));
    assert_eq!((jp.num_cycles(&gb), jp.size(&gb)), (3, 3));
    assert_eq!((jr.num_cycles(&gb), jr.size(&gb)), (3, 0));
    gb.regs[RF] = FLAG_Z | FLAG_C;
    assert_eq!((call.num_cycles(&gb), call.size(&gb)), (6, 0));
    assert_eq!((ret.num_cycles(&gb), ret.size(&gb)), (2, 1));
    assert_eq!((jp.num_cycles(&gb), jp.size(&gb)), (4, 0));
    assert_eq!((jr.num_cycles(&gb), jr.size(&gb)), (2, 2));
    for instr in [call, ret, jp, jr] {
        assert!(instr.encoded_size() >= 1);
    }
    assert_eq!(call.encoded_size(), 3);
    assert_eq!(ret.encoded_size(), 1);
    assert_eq!(jr.encoded_size(), 2);

    assert_eq!(Instr::Stop.size(&gb), 2);
    assert_eq!(Instr::Push(RBC).num_cycles(&gb), 4);
    assert_eq!(Instr::Pop(RBC).num_cycles(&gb), 3);
    assert_eq!(Instr::Ld(Dst8::IdNN(0xc000), Src8::R8(RA)).num_cycles(&gb), 4);
    assert_eq!(Instr::Ld(Dst8::IdNN(0xc000), Src8::R8(RA)).size(&gb), 3);
    assert_eq!(Instr::Ld16(Dst16::IdNN(0xc000), Src16::RSP).num_cycles(&gb), 5);
    assert_eq!(Instr::Bit(1, Dst8::Id(RHL)).num_cycles(&gb), 3);
    assert_eq!(Instr::Res(1, Dst8::Id(RHL)).num_cycles(&gb), 4);
    assert_eq!(Instr::Rl(Dst8::R8(RB)).num_cycles(&gb), 2);
    assert_eq!(Instr::Inc(Dst8::Id(RHL)).num_cycles(&gb), 3);
    assert_eq!(Instr::Add(Src8::D8(1)).size(&gb), 2);
}

#[test]
fn control_flow() {
    let mut gb = machine(&[0xcd, 0x00, 0x02]);
    step(&mut gb).unwrap();
    assert_eq!(gb.pc, 0x0200);
    assert_eq!(gb.sp, 0xfffc);
    assert_eq!(gb.read(0xfffd).unwrap(), 0x01);
    assert_eq!(gb.read(0xfffc).unwrap(), 0x03);
    assert_eq!(gb.cycles, 6);

    exec::ret(&mut gb).unwrap();
    assert_eq!(gb.pc, 0x0103);
    assert_eq!(gb.sp, 0xfffe);

    exec::rst(&mut gb, 0x28).unwrap();
    assert_eq!(gb.pc, 0x0028);
    exec::reti(&mut gb).unwrap();
    assert_eq!(gb.pc, 0x0103);
    assert!(gb.ime);

    exec::jr(&mut gb, -5);
    assert_eq!(gb.pc, 0x0103 + 2 - 5);
    exec::jp(&mut gb, Src16::D16(0x4000));
    assert_eq!(gb.pc, 0x4000);
    gb.regs[RH] = 0x12;
    gb.regs[RL] = 0x34;
    exec::jp(&mut gb, Src16::R16(RHL));
    assert_eq!(gb.pc, 0x1234);
    exec::jp_cond(&mut gb, Cond::Z, 0x0001);
    assert_eq!(gb.pc, 0x1234);
    exec::jp_cond(&mut gb, Cond::Nz, 0x0001);
    assert_eq!(gb.pc, 0x0001);
    exec::call_cond(&mut gb, Cond::C, 0x0300).unwrap();
    assert_eq!(gb.pc, 0x0001);
    exec::ret_cond(&mut gb, Cond::C).unwrap();
    assert_eq!(gb.pc, 0x0001);
    exec::jr_cond(&mut gb, Cond::C, 4);
    assert_eq!(gb.pc, 0x0001);
}

#[test]
fn halt_stop_and_gate() {
    let mut gb = machine(&[]);
    exec::halt(&mut gb);
    assert!(!gb.halted);
    exec::ei(&mut gb);
    assert!(gb.ime);
    exec::halt(&mut gb);
    assert!(gb.halted);
    assert!(!wake(&mut gb));
    assert!(gb.halted);
    gb.interrupt_received = true;
    assert!(wake(&mut gb));
    assert!(!gb.halted && !gb.interrupt_received);
    exec::di(&mut gb);
    assert!(!gb.ime);
    exec::stop(&mut gb);
    assert!(gb.stopped);
}

#[test]
fn flag_instructions() {
    let mut gb = machine(&[]);
    gb.regs[RF] = FLAG_Z | FLAG_N | FLAG_H;
    exec::ccf(&mut gb);
    assert_eq!(gb.regs[RF], FLAG_Z | FLAG_C);
    exec::ccf(&mut gb);
    assert_eq!(gb.regs[RF], FLAG_Z);
    gb.regs[RF] = FLAG_N | FLAG_H;
    exec::scf(&mut gb);
    assert_eq!(gb.regs[RF], FLAG_C);
    gb.regs[RA] = 0b1010_0101;
    exec::cpl(&mut gb);
    assert_eq!(gb.regs[RA], 0b0101_1010);
    assert_eq!(gb.regs[RF], FLAG_N | FLAG_H | FLAG_C);
}

#[test]
fn rotates_and_shifts() {
    let mut gb = machine(&[]);
    gb.regs[RB] = 0b1000_0001;
    exec::rlc(&mut gb, Dst8::R8(RB)).unwrap();
    assert_eq!(gb.regs[RB], 0b0000_0011);
    assert_eq!(gb.regs[RF], FLAG_C);
    exec::rrc(&mut gb, Dst8::R8(RB)).unwrap();
    assert_eq!(gb.regs[RB], 0b1000_0001);
    assert_eq!(gb.regs[RF], FLAG_C);
    assert_eq!(gb.regs[RA], 0);

    gb.regs[RF] = 0;
    gb.regs[RC] = 0b1000_0000;
    exec::rl(&mut gb, Dst8::R8(RC)).unwrap();
    assert_eq!(gb.regs[RC], 0);
    assert_eq!(gb.regs[RF], FLAG_Z | FLAG_C);
    exec::rl(&mut gb, Dst8::R8(RC)).unwrap();
    assert_eq!(gb.regs[RC], 1);
    assert_eq!(gb.regs[RF], 0);
    exec::rr(&mut gb, Dst8::R8(RC)).unwrap();
    assert_eq!(gb.regs[RC], 0);
    assert_eq!(gb.regs[RF], FLAG_Z | FLAG_C);
    exec::rr(&mut gb, Dst8::R8(RC)).unwrap();
    assert_eq!(gb.regs[RC], 0b1000_0000);
    assert_eq!(gb.regs[RF], 0);

    gb.regs[RD] = 0b1100_0001;
    exec::sla(&mut gb, Dst8::R8(RD)).unwrap();
    assert_eq!(gb.regs[RD], 0b1000_0010);
    assert_eq!(gb.regs[RF], FLAG_C);
    exec::sra(&mut gb, Dst8::R8(RD)).unwrap();
    assert_eq!(gb.regs[RD], 0b1100_0001);
    assert_eq!(gb.regs[RF], 0);
    exec::srl(&mut gb, Dst8::R8(RD)).unwrap();
    assert_eq!(gb.regs[RD], 0b0110_0000);
    assert_eq!(gb.regs[RF], FLAG_C);
    exec::swap(&mut gb, Dst8::R8(RD)).unwrap();
    assert_eq!(gb.regs[RD], 0b0000_0110);
    assert_eq!(gb.regs[RF], FLAG_C);

    // The accumulator's rotates clear Zero whatever the result.
    gb.regs[RA] = 0;
    gb.regs[RF] = FLAG_Z;
    exec::rlca(&mut gb);
    assert_eq!((gb.regs[RA], gb.regs[RF]), (0, 0));
    gb.regs[RA] = 0b1000_0000;
    exec::rla(&mut gb);
    assert_eq!((gb.regs[RA], gb.regs[RF]), (0, FLAG_C));
    exec::rra(&mut gb);
    assert_eq!((gb.regs[RA], gb.regs[RF]), (0b1000_0000, 0));
    gb.regs[RA] = 1;
    exec::rrca(&mut gb);
    assert_eq!((gb.regs[RA], gb.regs[RF]), (0b1000_0000, FLAG_C));

    // In memory.
    gb.regs[RH] = 0xc0;
    gb.regs[RL] = 0x10;
    gb.write(0xc010, 0x81).unwrap();
    exec::rlc(&mut gb, Dst8::Id(RHL)).unwrap();
    assert_eq!(gb.read(0xc010).unwrap(), 0x03);
}

#[test]
fn bitwise_and_sixteen_bit_arithmetic() {
    let mut gb = machine(&[]);
    gb.regs[RA] = 0b1100;
    gb.regs[RF] = FLAG_H | FLAG_C | FLAG_N;
    exec::bitwise(&mut gb, Src8::D8(0b1010), gameboy::cpu::instruction::BitwiseOp::And).unwrap();
    assert_eq!((gb.regs[RA], gb.regs[RF]), (0b1000, FLAG_H));
    exec::bitwise(&mut gb, Src8::D8(0b1000), gameboy::cpu::instruction::BitwiseOp::Xor).unwrap();
    assert_eq!((gb.regs[RA], gb.regs[RF]), (0, FLAG_Z | FLAG_H));
    gb.regs[RF] = 0;
    exec::bitwise(&mut gb, Src8::D8(0b0110), gameboy::cpu::instruction::BitwiseOp::Or).unwrap();
    assert_eq!((gb.regs[RA], gb.regs[RF]), (0b0110, 0));

    gb.regs[RH] = 0x0f;
    gb.regs[RL] = 0xff;
    gb.regs[RD] = 0x01;
    gb.regs[RE] = 0x01;
    gb.regs[RF] = FLAG_Z | FLAG_N;
    exec::add_16_hl(&mut gb, Src16::R16(RDE));
    assert_eq!(rr_to_u16(&gb, RHL), 0x1100);
    assert_eq!(gb.regs[RF], FLAG_Z | FLAG_H);
    gb.regs[RH] = 0xff;
    gb.regs[RL] = 0x00;
    exec::add_16_hl(&mut gb, Src16::R16(RDE));
    assert_eq!(rr_to_u16(&gb, RHL), 0x0001);
    assert_eq!(gb.regs[RF], FLAG_Z | FLAG_H | FLAG_C);

    gb.sp = 0x0005;
    exec::add_16_sp(&mut gb, -6);
    assert_eq!(gb.sp, 0xffff);
    exec::add_16_sp(&mut gb, 2);
    assert_eq!(gb.sp, 0x0001);

    // 16-bit increments and decrements never touch the flags.
    gb.regs[RF] = FLAG_Z | FLAG_C;
    gb.regs[RB] = 0xff;
    gb.regs[RC] = 0xff;
    exec::inc_dec_16(&mut gb, Dst16::R16(RBC), IncDec::Inc).unwrap();
    assert_eq!(rr_to_u16(&gb, RBC), 0x0000);
    exec::inc_dec_16(&mut gb, Dst16::R16(RBC), IncDec::Dec).unwrap();
    assert_eq!(rr_to_u16(&gb, RBC), 0xffff);
    exec::inc_dec_16(&mut gb, Dst16::RSP, IncDec::Dec).unwrap();
    assert_eq!(gb.sp, 0x0000);
    assert_eq!(gb.regs[RF], FLAG_Z | FLAG_C);
    assert_eq!(gb.regs[RE], 0x01);
}

#[test]
fn breakpoints_stop_the_machine() {
    let mut gb = machine(&[]);
    gb.debug.over_ret_addr = 0x0300;
    assert!(!check_breakpoint(&mut gb));
    gb.debug.breakpoints.push(0x0200);
    gb.debug.breakpoints.push(0x0100);
    assert!(check_breakpoint(&mut gb));
    assert!(gb.debug.step_mode);
    gb.debug.step_mode = false;
    gb.pc = 0x0300;
    assert!(check_breakpoint(&mut gb));
    gb.debug.step_mode = false;
    gb.pc = 0x0301;
    assert!(!check_breakpoint(&mut gb));
}

#[test]
fn engine_gets_ready() {
    let mut gb = machine(&[]);
    assert_eq!(prepare(&mut gb), Ok(Readiness::Run));
    gb.halted = true;
    assert_eq!(prepare(&mut gb), Ok(Readiness::Halted));
    assert!(gb.halted);

    // An interrupt wakes the CPU, is served, and leads to a breakpoint.
    gb.interrupt_received = true;
    gb.ime = true;
    gb.io_ports.write(IO_IE, INT_TIMER);
    gb.io_ports.write(IO_IF, INT_TIMER);
    gb.debug.breakpoints.push(0x0050);
    assert_eq!(prepare(&mut gb), Ok(Readiness::Prompt));
    assert!(!gb.halted);
    assert_eq!(gb.pc, 0x0050);
    assert_eq!(gb.sp, 0xfffc);
    assert!(gb.debug.step_mode);
    assert_eq!(gb.io_ports.read(IO_IF), 0);

    // With the stack in ROM the interrupt cannot be served.
    let mut gb = machine(&[]);
    gb.sp = 0x4000;
    gb.ime = true;
    gb.io_ports.write(IO_IE, INT_TIMER);
    gb.io_ports.write(IO_IF, INT_TIMER);
    assert_eq!(prepare(&mut gb), Err(Fault::RomWrite(0x3fff)));
}

#[test]
fn pacing() {
    assert_eq!(pacing_nanos(4, 1500), 2500);
    assert_eq!(pacing_nanos(4, 4000), 0);
    assert_eq!(pacing_nanos(4, 9000), 0);
    assert_eq!(pacing_nanos(u64::MAX, 5), u64::MAX - 5);
    assert_eq!(sleep_budget_nanos(19_000), 18_900);
    assert_eq!(sleep_budget_nanos(100), 0);
    assert_eq!(sleep_budget_nanos(99), 99);
}

#[test]
fn reserved_windows_are_told_apart() {
    for addr in [0xfea0u16, 0xfeff, 0xff4c, 0xff7f, 0xfed0, 0xff60] {
        assert!(reserved(addr));
    }
    for addr in [0x0000u16, 0xfe9f, 0xff00, 0xff4b, 0xff80, 0xfffe, 0xffff, 0xc000] {
        assert!(!reserved(addr));
    }
    // What is reserved reads as 0xff and swallows writes.
    let mut gb = machine(&[]);
    for addr in 0xfe00u16..=0xffff {
        if reserved(addr) {
            gb.write(addr, 0x12).unwrap();
            assert_eq!(gb.read(addr), Ok(0xff));
        }
    }
}

#[test]
fn images_that_can_be_loaded() {
    assert!(!can_load(&[]));
    assert!(!can_load(&[0u8; 0x147]));
    assert!(can_load(&[0u8; 0x148]));
    assert!(can_load(&rom_with(0x00, &[])));
    assert!(can_load(&vec![0u8; 2 * 0x4000]));
    assert!(!can_load(&vec![0u8; 2 * 0x4000 + 1]));
    let mut image = vec![0u8; 16 * 0x4000 + 1];
    image[0x147] = 0x05;
    assert!(!can_load(&image));
    image[0x147] = 0x01;
    assert!(can_load(&image));
    // An image whose header names no emulated cartridge earns its error
    // whatever its length.
    let mut image = vec![0u8; 128 * 0x4000 + 1];
    image[0x147] = 0x04;
    assert!(can_load(&image));
    assert_eq!(load_cartridge(&image).err(), Some(CartridgeLoadErr::InvalidCartridgeType(0x04)));
    image[0x147] = 0x19;
    assert!(can_load(&image));
    assert_eq!(load_cartridge(&image).err(), Some(CartridgeLoadErr::UnsupportedCartridgeType(0x19)));
    image[0x147] = 0x13;
    assert!(!can_load(&image));
}

#[test]
fn instructions_name_their_addresses() {
    let mut gb = machine(&[]);
    gb.regs[RH] = 0xfe;
    gb.regs[RL] = 0xa0;
    gb.regs[RC] = 0x4c;
    let none = Accesses { read: None, written: None };

    let load = Instr::Ld(Dst8::R8(RA), Src8::Id(RHL));
    assert_eq!(load.accesses(&gb), Accesses { read: Some(0xfea0), written: None });
    let store = Instr::Ld(Dst8::IdFFRC, Src8::R8(RA));
    assert_eq!(store.accesses(&gb), Accesses { read: None, written: Some(0xff4c) });
    let store = Instr::Ld(Dst8::IdFF(0x7f), Src8::R8(RA));
    assert_eq!(store.accesses(&gb), Accesses { read: None, written: Some(0xff7f) });
    let store = Instr::LdInc(Dst8::Id(RHL), Src8::R8(RA));
    assert_eq!(store.accesses(&gb), Accesses { read: None, written: Some(0xfea0) });
    let load = Instr::Ld(Dst8::R8(RA), Src8::IdNN(0xc123));
    assert_eq!(load.accesses(&gb), Accesses { read: Some(0xc123), written: None });
    assert_eq!(Instr::Inc(Dst8::Id(RHL)).accesses(&gb), Accesses { read: Some(0xfea0), written: Some(0xfea0) });
    assert_eq!(Instr::SetBit(3, Dst8::Id(RHL)).accesses(&gb), Accesses { read: Some(0xfea0), written: Some(0xfea0) });
    assert_eq!(Instr::Bit(3, Dst8::Id(RHL)).accesses(&gb), Accesses { read: Some(0xfea0), written: None });
    assert_eq!(Instr::Cp(Src8::Id(RHL)).accesses(&gb), Accesses { read: Some(0xfea0), written: None });
    assert_eq!(Instr::Add(Src8::D8(5)).accesses(&gb), none);
    assert_eq!(Instr::Inc(Dst8::R8(RB)).accesses(&gb), none);
    assert_eq!(Instr::Nop.accesses(&gb), none);
    assert_eq!(Instr::Push(RBC).accesses(&gb), none);

    assert_eq!(Src8::Id(RHL).address(&gb), Some(0xfea0));
    assert_eq!(Src8::R8(RB).address(&gb), None);
    assert_eq!(Src8::D8(1).address(&gb), None);
    assert_eq!(Dst8::IdFFRC.address(&gb), Some(0xff4c));
    assert_eq!(Dst8::IdNN(0x1234).address(&gb), Some(0x1234));
    assert_eq!(Dst8::R8(RA).address(&gb), None);

    // What is read at a reserved address is 0xff, and a write there is lost.
    gb.regs[RA] = 0x12;
    exec::ld(&mut gb, Dst8::R8(RA), Src8::Id(RHL)).unwrap();
    assert_eq!(gb.regs[RA], 0xff);
    assert!(reserved(0xfea0));
}
