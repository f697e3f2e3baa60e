//! The machine's state and its bus: every addressable region, the I/O
//! register file, the CPU registers, and the routing of reads and writes.

use vstd::prelude::*;
use vstd::array::spec_array_update;
use crate::cartridge::{Cartridge, CartridgeT};
use crate::fault::{Fault, written};

verus! {

/// 8-bit register.
pub type R = usize;

/// 16-bit register, i.e. a pair of 8-bit registers used together.
pub type RR = (usize, usize);

pub const RB: R = 0;
pub const RC: R = 1;
pub const RD: R = 2;
pub const RE: R = 3;
pub const RH: R = 4;
pub const RL: R = 5;
pub const RF: R = 6;
pub const RA: R = 7;

pub const RAF: RR = (RA, RF);
pub const RBC: RR = (RB, RC);
pub const RDE: RR = (RD, RE);
pub const RHL: RR = (RH, RL);

pub const FLAG_Z: u8 = 0b10000000;
pub const FLAG_N: u8 = 0b01000000;
pub const FLAG_H: u8 = 0b00100000;
pub const FLAG_C: u8 = 0b00010000;

// IO port/register aliases, relative to 0xff00.
pub const IO_P1: usize = 0x00;
pub const IO_TIMA: usize = 0x05;
pub const IO_TMA: usize = 0x06;
pub const IO_TAC: usize = 0x07;
pub const IO_IF: usize = 0x0f;
pub const IO_LCDC: usize = 0x40;
pub const IO_STAT: usize = 0x41;
pub const IO_SCY: usize = 0x42;
pub const IO_SCX: usize = 0x43;
pub const IO_LY: usize = 0x44;
pub const IO_LYC: usize = 0x45;
pub const IO_BGP: usize = 0x47;
pub const IO_OBP0: usize = 0x48;
pub const IO_OBP1: usize = 0x49;
pub const IO_WY: usize = 0x4a;
pub const IO_WX: usize = 0x4b;
// In the memory map this is at 0xffff, but to simplify things internally we store this at the end
// of the io_ports array
pub const IO_IE: usize = 0x4c;

pub const P1_OUT: u8 = 0b0011_0000;
pub const P1_P14_OUT: u8 = 0b0001_0000;
pub const P1_P15_OUT: u8 = 0b0010_0000;

pub const TAC_CLOCK_SELECT: u8 = 0b0000_0011;
pub const TAC_ENABLE: u8 = 0b0000_0100;

pub const CONTROLLER_DATA_P14: u8 = 0b1111_0000;
pub const CONTROLLER_DATA_P15: u8 = 0b0000_1111;
pub const CONTROLLER_DATA_A: u8 = 0b0000_0001;
pub const CONTROLLER_DATA_B: u8 = 0b0000_0010;
pub const CONTROLLER_DATA_SE: u8 = 0b0000_0100;
pub const CONTROLLER_DATA_ST: u8 = 0b0000_1000;
pub const CONTROLLER_DATA_RIGHT: u8 = 0b0001_0000;
pub const CONTROLLER_DATA_LEFT: u8 = 0b0010_0000;
pub const CONTROLLER_DATA_UP: u8 = 0b0100_0000;
pub const CONTROLLER_DATA_DOWN: u8 = 0b1000_0000;

pub const LCDC_ON: u8 = 0b1000_0000;
pub const LCDC_WIN_TILE_MAP: u8 = 0b0100_0000;
pub const LCDC_WIN_DISP: u8 = 0b0010_0000;
pub const LCDC_TILE_DATA: u8 = 0b0001_0000;
pub const LCDC_BG_TILE_MAP: u8 = 0b0000_1000;
pub const LCDC_OBJ_SIZE: u8 = 0b0000_0100;
pub const LCDC_OBJ_DISP: u8 = 0b0000_0010;
pub const LCDC_BG_DISP: u8 = 0b0000_0001;

pub const STAT_INT_LYC: u8 = 0b0100_0000;
pub const STAT_INT_M10: u8 = 0b0010_0000;
pub const STAT_INT_M01: u8 = 0b0001_0000;
pub const STAT_INT_M00: u8 = 0b0000_1000;
pub const STAT_LYC_SET: u8 = 0b0000_0100;
pub const STAT_MODE: u8 = 0b0000_0011;

pub const STAT_MODE_HBLANK: u8 = 0b0000_0000;
pub const STAT_MODE_VBLANK: u8 = 0b0000_0001;
pub const STAT_MODE_OAM: u8 = 0b0000_0010;
pub const STAT_MODE_TRANSFER: u8 = 0b0000_0011;

// Interrupt flags, used for IF and IE registers.
pub const INT_VBLANK: u8 = 0b0000_0001;
pub const INT_LCDC: u8 = 0b0000_0010;
pub const INT_TIMER: u8 = 0b0000_0100;
pub const INT_SERIAL: u8 = 0b0000_1000;
pub const INT_HILO: u8 = 0b0001_0000;

/// Whether a flag is set in a flags byte.
pub open spec fn has_flag(f: u8, flag: u8) -> bool {
    f & flag != 0
}

/// A flags byte with one flag set or cleared and the other bits kept.
pub open spec fn with_flag(f: u8, flag: u8, on: bool) -> u8 {
    if on {
        f | flag
    } else {
        f & !flag
    }
}

/// Tests a flag of a flags byte.
pub fn test_flag(f: u8, flag: u8) -> (on: bool)
    ensures
        on == has_flag(f, flag),
{
    f & flag != 0
}

/// Sets or clears a flag of a flags byte.
pub fn set_flag(f: u8, flag: u8, on: bool) -> (g: u8)
    ensures
        g == with_flag(f, flag, on),
{
    if on {
        f | flag
    } else {
        f & !flag
    }
}

/// An RGB triple of the framebuffer.
pub type Rgb = (u8, u8, u8);

/// The I/O register file. Each operation reads, or reads and rewrites, a
/// single register.
pub struct IoPorts {
    pub io_ports: [u8; 0x4d],
}

impl IoPorts {
    /// A register file with the given contents.
    pub fn new(io_ports: [u8; 0x4d]) -> (p: Self)
        ensures
            p.io_ports == io_ports,
    {
        Self { io_ports }
    }

    /// The register file with one register replaced.
    pub open spec fn with(self, port: usize, value: u8) -> IoPorts {
        IoPorts { io_ports: spec_array_update(self.io_ports, port as int, value) }
    }

    /// Reads a register.
    pub fn read(&self, port: usize) -> (value: u8)
        requires
            port < 0x4d,
        ensures
            value == self.io_ports[port as int],
    {
        self.io_ports[port]
    }

    /// Stores a value in a register.
    pub fn write(&mut self, port: usize, value: u8)
        requires
            port < 0x4d,
        ensures
            *final(self) == old(self).with(port, value),
    {
        self.io_ports[port] = value;
    }

    /// Masks a register with a value.
    pub fn and(&mut self, port: usize, value: u8)
        requires
            port < 0x4d,
        ensures
            *final(self) == old(self).with(port, old(self).io_ports[port as int] & value),
    {
        self.io_ports[port] = self.io_ports[port] & value;
    }

    /// Sets the bits of a value in a register.
    pub fn or(&mut self, port: usize, value: u8)
        requires
            port < 0x4d,
        ensures
            *final(self) == old(self).with(port, old(self).io_ports[port as int] | value),
    {
        self.io_ports[port] = self.io_ports[port] | value;
    }

    /// Toggles the bits of a value in a register.
    pub fn xor(&mut self, port: usize, value: u8)
        requires
            port < 0x4d,
        ensures
            *final(self) == old(self).with(port, old(self).io_ports[port as int] ^ value),
    {
        self.io_ports[port] = self.io_ports[port] ^ value;
    }

    /// Adds to a register, wrapping at the 8-bit boundary.
    pub fn add(&mut self, port: usize, value: u8)
        requires
            port < 0x4d,
        ensures
            *final(self) == old(self).with(port, old(self).io_ports[port as int].wrapping_add(value)),
    {
        self.io_ports[port] = self.io_ports[port].wrapping_add(value);
    }
}

/// Debugger state: the stepping gate and the addresses to stop at.
pub struct Debug {
    pub step_mode: bool,
    pub breakpoints: Vec<u16>,
    pub over_ret_addr: u16,
    pub stack_base: u16,
}

impl Debug {
    /// The debugger's state at power-on: not stepping, no breakpoints.
    pub fn new() -> (d: Self)
        ensures
            !d.step_mode,
            d.breakpoints@ == Seq::<u16>::empty(),
            d.over_ret_addr == 0x0000,
            d.stack_base == 0xfffe,
    {
        Self { step_mode: false, breakpoints: Vec::new(), over_ret_addr: 0x0000, stack_base: 0xfffe }
    }
}

/// The machine: its memories, its registers and its latches.
pub struct Gameboy {
    pub wram: [u8; 0x2000],
    pub vram: [u8; 0x2000],
    pub oam: [u8; 0xa0],
    pub io_ports: IoPorts,
    pub hram: [u8; 0x7f],
    pub cartridge: Cartridge,

    pub cycles: u64,
    pub pc: u16,
    pub sp: u16,
    pub regs: [u8; 8],
    pub ime: bool,
    pub halted: bool,
    pub stopped: bool,

    pub debug: Debug,

    /// Latched when an interrupt is raised; a halted CPU waits for it.
    pub interrupt_received: bool,
    /// Latched when the timer is enabled; a disabled timer waits for it.
    pub timer_enabled: bool,
    /// Which buttons are currently being pressed.
    /// Like the actual Gameboy P1 register, 1 means not pressed and 0 means pressed.
    pub controller_data: u8,
    /// Pixel data to be drawn to the screen.
    pub screen: [[Rgb; 160]; 144],
}

/// Whether two machines differ at most in what instructions work on: the
/// cycle counter, the debugger's state, the screen, the controller lines
/// and the interrupt latch are the same.
pub open spec fn same_surroundings(pre: Gameboy, post: Gameboy) -> bool {
    &&& post.cycles == pre.cycles
    &&& post.debug == pre.debug
    &&& post.screen == pre.screen
    &&& post.controller_data == pre.controller_data
    &&& post.interrupt_received == pre.interrupt_received
}

/// The value that the P1 register takes when `value` is written to it:
/// the two select bits of `value`, and below them the four button lines of
/// the selected half of the controller data (all ones when neither half is
/// selected).
pub open spec fn p1_value(value: u8, controller_data: u8) -> u8 {
    let output_select = value & P1_OUT;
    let output = if output_select & P1_P15_OUT == 0 {
        controller_data & CONTROLLER_DATA_P15
    } else if output_select & P1_P14_OUT == 0 {
        (controller_data & CONTROLLER_DATA_P14) >> 4
    } else {
        0b0000_1111
    };
    output_select | output
}

/// The I/O registers as they stand at power-on.
pub open spec fn power_on_ports(p: IoPorts) -> bool {
    forall|i: int| 0 <= i < 0x4d ==> #[trigger] p.io_ports[i] == (
        if i == IO_P1 {
            0xcfu8
        } else if i == IO_LCDC {
            0x91u8
        } else if i == IO_BGP {
            0xfcu8
        } else if i == IO_OBP0 || i == IO_OBP1 {
            0xffu8
        } else {
            0u8
        }
    )
}

impl Gameboy {
    /// Whether `self` is the machine at power-on with this cartridge
    /// inserted: memory zeroed, execution about to start at 0x0100 with the
    /// stack at 0xfffe, interrupts off, no button pressed, a black screen.
    pub open spec fn is_power_on(self, cartridge: Cartridge) -> bool {
        &&& forall|i: int| 0 <= i < 0x2000 ==> self.wram[i] == 0
        &&& forall|i: int| 0 <= i < 0x2000 ==> self.vram[i] == 0
        &&& forall|i: int| 0 <= i < 0xa0 ==> self.oam[i] == 0
        &&& forall|i: int| 0 <= i < 0x7f ==> self.hram[i] == 0
        &&& power_on_ports(self.io_ports)
        &&& self.cartridge == cartridge
        &&& self.cycles == 0
        &&& self.pc == 0x0100
        &&& self.sp == 0xfffe
        &&& forall|i: int| 0 <= i < 8 ==> self.regs[i] == 0
        &&& !self.ime
        &&& !self.halted
        &&& !self.stopped
        &&& !self.debug.step_mode
        &&& self.debug.breakpoints@ == Seq::<u16>::empty()
        &&& self.debug.over_ret_addr == 0x0000
        &&& self.debug.stack_base == 0xfffe
        &&& !self.interrupt_received
        &&& !self.timer_enabled
        &&& self.controller_data == 0xff
        &&& forall|y: int, x: int| 0 <= y < 144 && 0 <= x < 160 ==> self.screen[y][x] == (0u8, 0u8, 0u8)
    }

    /// The machine at power-on with a cartridge inserted.
    pub fn new(cartridge: Cartridge) -> (gb: Self)
        ensures
            gb.is_power_on(cartridge),
    {
        let mut io_ports = IoPorts::new([0u8; 0x4d]);
        io_ports.write(IO_P1, 0xcf);
        io_ports.write(IO_LCDC, 0x91);
        io_ports.write(IO_BGP, 0xfc);
        io_ports.write(IO_OBP0, 0xff);
        io_ports.write(IO_OBP1, 0xff);

        Self {
            wram: [0u8; 0x2000],
            vram: [0u8; 0x2000],
            oam: [0u8; 0xa0],
            io_ports: io_ports,
            hram: [0u8; 0x7f],
            cartridge: cartridge,
            debug: Debug::new(),
            cycles: 0,
            pc: 0x0100,
            sp: 0xfffe,
            regs: [0u8; 8],
            ime: false,
            halted: false,
            stopped: false,
            interrupt_received: false,
            timer_enabled: false,
            controller_data: 0xff,
            screen: [[(0u8, 0u8, 0u8); 160]; 144],
        }
    }

    /// What a read of the bus at `addr` gives. Every address belongs to
    /// exactly one region; the two reserved windows read as 0xff.
    pub open spec fn spec_read(&self, addr: u16) -> Result<u8, Fault> {
        if addr <= 0x7fff {
            self.cartridge.spec_read_rom(addr)
        } else if addr <= 0x9fff {
            Ok(self.vram[addr - 0x8000])
        } else if addr <= 0xbfff {
            self.cartridge.spec_read_ram(addr)
        } else if addr <= 0xdfff {
            Ok(self.wram[addr - 0xc000])
        } else if addr <= 0xfdff {
            Ok(self.wram[addr - 0xe000])
        } else if addr <= 0xfe9f {
            Ok(self.oam[addr - 0xfe00])
        } else if addr <= 0xfeff {
            Ok(0xffu8)
        } else if addr <= 0xff4b {
            Ok(self.io_ports.io_ports[addr - 0xff00])
        } else if addr <= 0xff7f {
            Ok(0xffu8)
        } else if addr <= 0xfffe {
            Ok(self.hram[addr - 0xff80])
        } else {
            Ok(self.io_ports.io_ports[IO_IE as int])
        }
    }

    /// The machine after a write of `value` to the bus at `addr`. Writes to
    /// the reserved windows change nothing; a write to P1 stores the
    /// selected button lines; a write to TAC that sets the enable bit also
    /// latches the timer's wake-up signal.
    pub open spec fn spec_write(self, addr: u16, value: u8) -> Result<Gameboy, Fault> {
        if addr <= 0x7fff {
            match self.cartridge.spec_write_rom(addr, value) {
                Ok(c) => Ok(Gameboy { cartridge: c, ..self }),
                Err(e) => Err(e),
            }
        } else if addr <= 0x9fff {
            Ok(Gameboy { vram: spec_array_update(self.vram, addr - 0x8000, value), ..self })
        } else if addr <= 0xbfff {
            match self.cartridge.spec_write_ram(addr, value) {
                Ok(c) => Ok(Gameboy { cartridge: c, ..self }),
                Err(e) => Err(e),
            }
        } else if addr <= 0xdfff {
            Ok(Gameboy { wram: spec_array_update(self.wram, addr - 0xc000, value), ..self })
        } else if addr <= 0xfdff {
            Ok(Gameboy { wram: spec_array_update(self.wram, addr - 0xe000, value), ..self })
        } else if addr <= 0xfe9f {
            Ok(Gameboy { oam: spec_array_update(self.oam, addr - 0xfe00, value), ..self })
        } else if addr <= 0xfeff {
            Ok(self)
        } else if addr == 0xff00 + IO_P1 {
            Ok(Gameboy { io_ports: self.io_ports.with(IO_P1, p1_value(value, self.controller_data)), ..self })
        } else if addr == 0xff00 + IO_TAC {
            Ok(Gameboy {
                io_ports: self.io_ports.with(IO_TAC, value),
                timer_enabled: self.timer_enabled || value & TAC_ENABLE > 0,
                ..self
            })
        } else if addr <= 0xff4b {
            Ok(Gameboy { io_ports: self.io_ports.with((addr - 0xff00) as usize, value), ..self })
        } else if addr <= 0xff7f {
            Ok(self)
        } else if addr <= 0xfffe {
            Ok(Gameboy { hram: spec_array_update(self.hram, addr - 0xff80, value), ..self })
        } else {
            Ok(Gameboy { io_ports: self.io_ports.with(IO_IE, value), ..self })
        }
    }

    /// Reads the byte at an address of the bus.
    pub fn read(&self, addr: u16) -> (r: Result<u8, Fault>)
        ensures
            r == self.spec_read(addr),
    {
        match addr {
            0x0000..=0x7fff => self.cartridge.read_rom(addr),
            0x8000..=0x9fff => Ok(self.vram[(addr - 0x8000) as usize]),
            0xa000..=0xbfff => self.cartridge.read_ram(addr),
            0xc000..=0xdfff => Ok(self.wram[(addr - 0xc000) as usize]),
            0xe000..=0xfdff => Ok(self.wram[(addr - 0xe000) as usize]),
            0xfe00..=0xfe9f => Ok(self.oam[(addr - 0xfe00) as usize]),
            0xfea0..=0xfeff => Ok(0xff),
            0xff00..=0xff4b => {
                let port = (addr - 0xff00) as usize;
                Ok(self.io_ports.read(port))
            },
            0xff4c..=0xff7f => Ok(0xff),
            0xff80..=0xfffe => Ok(self.hram[(addr - 0xff80) as usize]),
            0xffff => Ok(self.io_ports.read(IO_IE)),
        }
    }

    /// Writes a byte to an address of the bus.
    pub fn write(&mut self, addr: u16, value: u8) -> (r: Result<(), Fault>)
        ensures
            written(*old(self), *final(self), r, old(self).spec_write(addr, value)),
            same_surroundings(*old(self), *final(self)),
    {
        match addr {
            0x0000..=0x7fff => {
                return self.cartridge.write_rom(addr, value);
            },
            0x8000..=0x9fff => {
                self.vram[(addr - 0x8000) as usize] = value;
            },
            0xa000..=0xbfff => {
                return self.cartridge.write_ram(addr, value);
            },
            0xc000..=0xdfff => {
                self.wram[(addr - 0xc000) as usize] = value;
            },
            0xe000..=0xfdff => {
                self.wram[(addr - 0xe000) as usize] = value;
            },
            0xfe00..=0xfe9f => {
                self.oam[(addr - 0xfe00) as usize] = value;
            },
            0xfea0..=0xfeff => {},
            0xff00..=0xff4b => {
                let port = (addr - 0xff00) as usize;
                if port == IO_P1 {
                    let output_select = value & P1_OUT;
                    let cont_data = self.controller_data;
                    let output = if output_select & P1_P15_OUT == 0 {
                        cont_data & CONTROLLER_DATA_P15
                    } else if output_select & P1_P14_OUT == 0 {
                        (cont_data & CONTROLLER_DATA_P14) >> 4
                    } else {
                        0b0000_1111
                    };
                    self.io_ports.write(IO_P1, output_select | output);
                } else if port == IO_TAC {
                    self.io_ports.write(IO_TAC, value);
                    if value & TAC_ENABLE > 0 {
                        self.timer_enabled = true;
                    }
                } else {
                    self.io_ports.write(port, value);
                }
            },
            0xff4c..=0xff7f => {},
            0xff80..=0xfffe => {
                self.hram[(addr - 0xff80) as usize] = value;
            },
            0xffff => {
                self.io_ports.write(IO_IE, value);
            },
        }
        Ok(())
    }
}

/// Whether an address lies in one of the two reserved windows of the bus,
/// behind which nothing stands: a read there gives 0xff and a write is
/// lost.
pub open spec fn is_reserved(addr: u16) -> bool {
    (0xfea0 <= addr <= 0xfeff) || (0xff4c <= addr <= 0xff7f)
}

/// Tells whether an address lies in one of the two reserved windows of
/// the bus, so that a caller can warn of an access there.
pub fn reserved(addr: u16) -> (r: bool)
    ensures
        r == is_reserved(addr),
{
    (0xfea0 <= addr && addr <= 0xfeff) || (0xff4c <= addr && addr <= 0xff7f)
}

/// The 16-bit value of a pair of bytes, high byte first.
pub open spec fn pair_value(high: u8, low: u8) -> u16 {
    (high * 256 + low) as u16
}

/// Converts a register pair alias into a u16.
pub fn rr_to_u16(gb: &Gameboy, reg_pair: RR) -> (value: u16)
    requires
        reg_pair.0 < 8,
        reg_pair.1 < 8,
    ensures
        value == pair_value(gb.regs[reg_pair.0 as int], gb.regs[reg_pair.1 as int]),
{
    let upper = gb.regs[reg_pair.0] as u16 * 256;
    let lower = gb.regs[reg_pair.1] as u16;
    upper + lower
}

} // verus!
