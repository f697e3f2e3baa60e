//! Cartridges: the ROM and RAM behind the two cartridge windows of the bus,
//! with the bank controllers that remap them.

use vstd::prelude::*;
use vstd::array::spec_array_update;
use crate::fault::{Fault, written};

verus! {

/// Size of one switchable ROM bank.
pub const ROM_BANK: usize = 0x4000;

/// Size of one switchable RAM bank.
pub const RAM_BANK: usize = 0x2000;

/// Offset of the header byte that names the controller.
pub const HEADER_CARTRIDGE_TYPE: usize = 0x147;

/// A Gameboy cartridge with ROM and potentially RAM that can be read and
/// written. Cartridges with a memory bank controller use writes to ROM to
/// select banks.
///
/// Every access either succeeds or is refused with a [`Fault`] that names
/// the address; a refused write leaves the cartridge as it was.
pub trait CartridgeT: Sized {
    /// What a read of the ROM window gives.
    spec fn spec_read_rom(&self, addr: u16) -> Result<u8, Fault>;

    /// What a read of the RAM window gives.
    spec fn spec_read_ram(&self, addr: u16) -> Result<u8, Fault>;

    /// The cartridge after a write into the ROM window.
    spec fn spec_write_rom(self, addr: u16, value: u8) -> Result<Self, Fault>;

    /// The cartridge after a write into the RAM window.
    spec fn spec_write_ram(self, addr: u16, value: u8) -> Result<Self, Fault>;

    fn read_rom(&self, addr: u16) -> (r: Result<u8, Fault>)
        ensures
            r == self.spec_read_rom(addr),
    ;

    fn read_ram(&self, addr: u16) -> (r: Result<u8, Fault>)
        ensures
            r == self.spec_read_ram(addr),
    ;

    fn write_rom(&mut self, addr: u16, value: u8) -> (r: Result<(), Fault>)
        ensures
            written(*old(self), *final(self), r, old(self).spec_write_rom(addr, value)),
    ;

    fn write_ram(&mut self, addr: u16, value: u8) -> (r: Result<(), Fault>)
        ensures
            written(*old(self), *final(self), r, old(self).spec_write_ram(addr, value)),
    ;
}

/// Why a cartridge image could not be loaded.
#[derive(Debug, Clone, Copy, PartialEq, Eq)]
pub enum CartridgeLoadErr {
    /// The header byte names no cartridge type.
    InvalidCartridgeType(u8),
    /// The header byte names a cartridge type that is not emulated.
    UnsupportedCartridgeType(u8),
}

/// The families of bank controller.
#[derive(Debug, Clone, Copy, PartialEq, Eq)]
pub enum MbcType {
    NoMbc,
    Mbc1,
    Mbc2,
    Mbc3,
    Mbc5,
}

/// What the header's cartridge-type byte says: the controller family and
/// whether the cartridge RAM is battery backed.
pub open spec fn header_kind(cartridge_type: u8) -> Result<(MbcType, bool), CartridgeLoadErr> {
    if cartridge_type == 0x00 || cartridge_type == 0x08 {
        Ok((MbcType::NoMbc, false))
    } else if cartridge_type == 0x09 {
        Ok((MbcType::NoMbc, true))
    } else if cartridge_type == 0x01 || cartridge_type == 0x02 {
        Ok((MbcType::Mbc1, false))
    } else if cartridge_type == 0x03 {
        Ok((MbcType::Mbc1, true))
    } else if cartridge_type == 0x05 {
        Ok((MbcType::Mbc2, false))
    } else if cartridge_type == 0x06 {
        Ok((MbcType::Mbc2, true))
    } else if cartridge_type == 0x0f || cartridge_type == 0x10 || cartridge_type == 0x13 {
        Ok((MbcType::Mbc3, true))
    } else if cartridge_type == 0x11 || cartridge_type == 0x12 {
        Ok((MbcType::Mbc3, false))
    } else if cartridge_type == 0x1b || cartridge_type == 0x1e {
        Ok((MbcType::Mbc5, true))
    } else if 0x19 <= cartridge_type <= 0x1d {
        Ok((MbcType::Mbc5, false))
    } else if (0x0b <= cartridge_type <= 0x0e) || cartridge_type == 0x1f || cartridge_type == 0xfd
        || cartridge_type == 0xfe {
        Err(CartridgeLoadErr::UnsupportedCartridgeType(cartridge_type))
    } else {
        Err(CartridgeLoadErr::InvalidCartridgeType(cartridge_type))
    }
}

/// Reads the cartridge-type byte of a header.
pub fn classify_header(cartridge_type: u8) -> (r: Result<(MbcType, bool), CartridgeLoadErr>)
    ensures
        r == header_kind(cartridge_type),
{
    match cartridge_type {
        0x00 => Ok((MbcType::NoMbc, false)),
        0x01 => Ok((MbcType::Mbc1, false)),
        0x02 => Ok((MbcType::Mbc1, false)),
        0x03 => Ok((MbcType::Mbc1, true)),
        0x04 => Err(CartridgeLoadErr::InvalidCartridgeType(cartridge_type)),
        0x05 => Ok((MbcType::Mbc2, false)),
        0x06 => Ok((MbcType::Mbc2, true)),
        0x07 => Err(CartridgeLoadErr::InvalidCartridgeType(cartridge_type)),
        0x08 => Ok((MbcType::NoMbc, false)),
        0x09 => Ok((MbcType::NoMbc, true)),
        0x0a => Err(CartridgeLoadErr::InvalidCartridgeType(cartridge_type)),
        0x0b..=0x0e => Err(CartridgeLoadErr::UnsupportedCartridgeType(cartridge_type)),
        0x0f => Ok((MbcType::Mbc3, true)),
        0x10 => Ok((MbcType::Mbc3, true)),
        0x11 => Ok((MbcType::Mbc3, false)),
        0x12 => Ok((MbcType::Mbc3, false)),
        0x13 => Ok((MbcType::Mbc3, true)),
        0x14..=0x18 => Err(CartridgeLoadErr::InvalidCartridgeType(cartridge_type)),
        0x19 => Ok((MbcType::Mbc5, false)),
        0x1a => Ok((MbcType::Mbc5, false)),
        0x1b => Ok((MbcType::Mbc5, true)),
        0x1c => Ok((MbcType::Mbc5, false)),
        0x1d => Ok((MbcType::Mbc5, false)),
        0x1e => Ok((MbcType::Mbc5, true)),
        0x1f => Err(CartridgeLoadErr::UnsupportedCartridgeType(cartridge_type)),
        0x20..=0xfc => Err(CartridgeLoadErr::InvalidCartridgeType(cartridge_type)),
        0xfd..=0xfe => Err(CartridgeLoadErr::UnsupportedCartridgeType(cartridge_type)),
        0xff => Err(CartridgeLoadErr::InvalidCartridgeType(cartridge_type)),
    }
}

/// The ROM of a cartridge made from an image: the image's bytes, then
/// zeroes up to the capacity.
pub open spec fn rom_image(bytes: Seq<u8>, capacity: nat) -> Seq<u8> {
    Seq::new(capacity, |i: int| if i < bytes.len() { bytes[i] } else { 0u8 })
}

/// Builds the ROM of a cartridge from an image.
pub fn fill_rom(bytes: &[u8], capacity: usize) -> (rom: Vec<u8>)
    requires
        bytes@.len() <= capacity,
    ensures
        rom@ == rom_image(bytes@, capacity as nat),
{
    let mut rom: Vec<u8> = vec![0u8; capacity];
    let mut i: usize = 0;
    while i < bytes.len()
        invariant
            i <= bytes@.len() <= capacity,
            rom@.len() == capacity,
            forall|j: int| 0 <= j < i ==> rom@[j] == bytes@[j],
            forall|j: int| i <= j < capacity ==> rom@[j] == 0u8,
        decreases bytes@.len() - i,
    {
        rom[i] = bytes[i];
        i += 1;
    }
    assert(rom@ =~= rom_image(bytes@, capacity as nat));
    rom
}

/// A cartridge with no memory bank controller.
pub struct CartridgeNoMbc {
    /// Two banks of 0x4000 bytes each, always mapped to 0x0000-0x7fff.
    pub rom: Vec<u8>,
    /// A single bank of 0x2000 bytes that is always mapped to 0xa000-0xbfff.
    pub ram: Box<[u8; 0x2000]>,
}

impl CartridgeNoMbc {
    /// A cartridge that holds an image, as it is at power-on.
    pub fn new(bytes: &[u8], has_battery: bool) -> (c: Self)
        requires
            bytes@.len() <= 0x8000,
        ensures
            c.rom@ == rom_image(bytes@, 0x8000),
            forall|i: int| 0 <= i < 0x2000 ==> c.ram[i] == 0,
    {
        Self { rom: fill_rom(bytes, 2 * ROM_BANK), ram: Box::new([0u8; 0x2000]) }
    }
}

impl CartridgeT for CartridgeNoMbc {
    open spec fn spec_read_rom(&self, addr: u16) -> Result<u8, Fault> {
        if addr < self.rom@.len() {
            Ok(self.rom@[addr as int])
        } else {
            Err(Fault::RomRead(addr))
        }
    }

    open spec fn spec_read_ram(&self, addr: u16) -> Result<u8, Fault> {
        if 0xa000 <= addr < 0xc000 {
            Ok(self.ram[addr - 0xa000])
        } else {
            Err(Fault::RamRead(addr))
        }
    }

    /// A cartridge without a controller has nothing to switch: every write
    /// into its ROM is refused.
    open spec fn spec_write_rom(self, addr: u16, value: u8) -> Result<Self, Fault> {
        Err(Fault::RomWrite(addr))
    }

    open spec fn spec_write_ram(self, addr: u16, value: u8) -> Result<Self, Fault> {
        if 0xa000 <= addr < 0xc000 {
            Ok(CartridgeNoMbc { ram: Box::new(spec_array_update(*self.ram, addr - 0xa000, value)), ..self })
        } else {
            Err(Fault::RamWrite(addr))
        }
    }

    fn read_rom(&self, addr: u16) -> (r: Result<u8, Fault>) {
        if (addr as usize) < self.rom.len() {
            Ok(self.rom[addr as usize])
        } else {
            Err(Fault::RomRead(addr))
        }
    }

    fn read_ram(&self, addr: u16) -> (r: Result<u8, Fault>) {
        if 0xa000 <= addr && addr < 0xc000 {
            Ok(self.ram[(addr - 0xa000) as usize])
        } else {
            Err(Fault::RamRead(addr))
        }
    }

    fn write_rom(&mut self, addr: u16, value: u8) -> (r: Result<(), Fault>) {
        Err(Fault::RomWrite(addr))
    }

    fn write_ram(&mut self, addr: u16, value: u8) -> (r: Result<(), Fault>) {
        if 0xa000 <= addr && addr < 0xc000 {
            self.ram[(addr - 0xa000) as usize] = value;
            Ok(())
        } else {
            Err(Fault::RamWrite(addr))
        }
    }
}

/// A cartridge with an Mbc1-type memory bank controller.
pub struct CartridgeMbc1 {
    /// Whether or not RAM is currently write-protected.
    pub write_protect_on: bool,
    /// ROM bank select. Can take values between 0x01-0x1f (banks #1-32).
    /// In 16Mbit ROM / 8Kbyte RAM mode, selects an individual bank from a range of banks.
    pub rom_bank_code: u8,
    /// In 16Mbit ROM / 8KByte RAM mode:
    ///     Upper ROM bank select. Can take values between 0x00-0x03, to select banks 0x01-1f,
    ///     0x21-0x3f, 0x41-0x5f, 0x61-0x7f, respectively.
    /// In 4Mbit ROM / 32KByte RAM mode:
    ///     Which RAM bank is currently selected. Can take values between 0x00-0x03 (banks #0-3).
    pub ram_or_upper_rom_bank_code: u8,
    /// When set to true, 4Mbit ROM / 32KByte RAM mode is enabled.
    /// When set to false, 16Mbit ROM / 8KByte RAM mode is enabled.
    /// Defaults to false.
    pub large_ram_mode: bool,
    /// 16Mbit ROM data (up to 128 banks of 0x4000 bytes each).
    pub rom: Vec<u8>,
    /// 256Kbit RAM data (up to 4 banks of 0x2000 bytes each).
    pub ram: Box<[u8; 0x8000]>,
}

impl CartridgeMbc1 {
    /// A cartridge that holds an image, as it is at power-on.
    pub fn new(bytes: &[u8], has_battery: bool) -> (c: Self)
        requires
            bytes@.len() <= 128 * 0x4000,
        ensures
            c.write_protect_on,
            c.rom_bank_code == 0x01,
            c.ram_or_upper_rom_bank_code == 0x00,
            !c.large_ram_mode,
            c.rom@ == rom_image(bytes@, 128 * 0x4000),
            forall|i: int| 0 <= i < 0x8000 ==> c.ram[i] == 0,
    {
        Self {
            write_protect_on: true,
            rom_bank_code: 0x01,
            ram_or_upper_rom_bank_code: 0x00,
            large_ram_mode: false,
            rom: fill_rom(bytes, 128 * ROM_BANK),
            ram: Box::new([0u8; 0x8000]),
        }
    }

    /// Where in the ROM the byte at an address of the switchable window lies.
    pub open spec fn rom_index(&self, addr: u16) -> int {
        (self.ram_or_upper_rom_bank_code * 0x20 + self.rom_bank_code) * 0x4000 + addr - 0x4000
    }

    /// Where in the RAM the byte at an address of the RAM window lies.
    pub open spec fn ram_index(&self, addr: u16) -> int {
        self.ram_or_upper_rom_bank_code * 0x2000 + addr - 0xa000
    }
}

impl CartridgeT for CartridgeMbc1 {
    open spec fn spec_read_rom(&self, addr: u16) -> Result<u8, Fault> {
        if addr <= 0x3fff && addr < self.rom@.len() {
            Ok(self.rom@[addr as int])
        } else if 0x4000 <= addr <= 0x7fff && self.rom_index(addr) < self.rom@.len() {
            Ok(self.rom@[self.rom_index(addr)])
        } else {
            Err(Fault::RomRead(addr))
        }
    }

    /// While the RAM is protected every read gives 0xff.
    open spec fn spec_read_ram(&self, addr: u16) -> Result<u8, Fault> {
        if self.write_protect_on {
            Ok(0xff)
        } else if 0 <= self.ram_index(addr) < 0x8000 {
            Ok(self.ram[self.ram_index(addr)])
        } else {
            Err(Fault::RamRead(addr))
        }
    }

    open spec fn spec_write_rom(self, addr: u16, value: u8) -> Result<Self, Fault> {
        if addr <= 0x1fff {
            Ok(CartridgeMbc1 { write_protect_on: value != 0xa0, ..self })
        } else if addr <= 0x3fff {
            Ok(CartridgeMbc1 { rom_bank_code: if value == 0x00 { 0x01 } else { value }, ..self })
        } else if addr <= 0x5fff {
            Ok(CartridgeMbc1 { ram_or_upper_rom_bank_code: value & 0b11, ..self })
        } else if addr <= 0x7fff {
            Ok(CartridgeMbc1 { large_ram_mode: value & 1 > 0, ..self })
        } else {
            Err(Fault::RomWrite(addr))
        }
    }

    open spec fn spec_write_ram(self, addr: u16, value: u8) -> Result<Self, Fault> {
        if !self.write_protect_on && 0 <= self.ram_index(addr) < 0x8000 {
            Ok(CartridgeMbc1 { ram: Box::new(spec_array_update(*self.ram, self.ram_index(addr), value)), ..self })
        } else {
            Err(Fault::RamWrite(addr))
        }
    }

    fn read_rom(&self, addr: u16) -> (r: Result<u8, Fault>) {
        if addr <= 0x3fff {
            if (addr as usize) < self.rom.len() {
                return Ok(self.rom[addr as usize]);
            }
        } else if addr <= 0x7fff {
            let bank: usize = self.ram_or_upper_rom_bank_code as usize * 0x20 + self.rom_bank_code as usize;
            let index: usize = bank * ROM_BANK + addr as usize - 0x4000;
            if index < self.rom.len() {
                return Ok(self.rom[index]);
            }
        }
        Err(Fault::RomRead(addr))
    }

    fn read_ram(&self, addr: u16) -> (r: Result<u8, Fault>) {
        if self.write_protect_on {
            return Ok(0xff);
        }
        let end: usize = self.ram_or_upper_rom_bank_code as usize * RAM_BANK + addr as usize;
        if 0xa000 <= end && end - 0xa000 < 0x8000 {
            Ok(self.ram[end - 0xa000])
        } else {
            Err(Fault::RamRead(addr))
        }
    }

    fn write_rom(&mut self, addr: u16, value: u8) -> (r: Result<(), Fault>) {
        if addr <= 0x1fff {
            self.write_protect_on = value != 0xa0;
        } else if addr <= 0x3fff {
            self.rom_bank_code = if value == 0x00 { 0x01 } else { value };
        } else if addr <= 0x5fff {
            self.ram_or_upper_rom_bank_code = value & 0b11;
        } else if addr <= 0x7fff {
            self.large_ram_mode = value & 1 > 0;
        } else {
            return Err(Fault::RomWrite(addr));
        }
        Ok(())
    }

    fn write_ram(&mut self, addr: u16, value: u8) -> (r: Result<(), Fault>) {
        if self.write_protect_on {
            return Err(Fault::RamWrite(addr));
        }
        let end: usize = self.ram_or_upper_rom_bank_code as usize * RAM_BANK + addr as usize;
        if 0xa000 <= end && end - 0xa000 < 0x8000 {
            self.ram[end - 0xa000] = value;
            Ok(())
        } else {
            Err(Fault::RamWrite(addr))
        }
    }
}

/// A cartridge with an Mbc2-type memory bank controller.
pub struct CartridgeMbc2 {
    /// Whether or not RAM is currently write-protected.
    pub write_protect_on: bool,
    /// ROM bank select. Can take values between 0x01-0x0f (banks #1-15).
    pub rom_bank_code: u8,
    /// 16 banks of 0x4000 bytes each.
    pub rom: Vec<u8>,
    /// Mapped to 0xa000-0xa1ff, but only bottom 4 bits of each address are useable.
    pub ram: Box<[u8; 512]>,
}

impl CartridgeMbc2 {
    /// A cartridge that holds an image, as it is at power-on.
    pub fn new(bytes: &[u8], has_battery: bool) -> (c: Self)
        requires
            bytes@.len() <= 16 * 0x4000,
        ensures
            c.write_protect_on,
            c.rom_bank_code == 0x00,
            c.rom@ == rom_image(bytes@, 16 * 0x4000),
            forall|i: int| 0 <= i < 512 ==> c.ram[i] == 0,
    {
        Self {
            write_protect_on: true,
            rom_bank_code: 0x00,
            rom: fill_rom(bytes, 16 * ROM_BANK),
            ram: Box::new([0u8; 512]),
        }
    }

    /// Where in the ROM the byte at an address above the fixed bank lies.
    pub open spec fn rom_index(&self, addr: u16) -> int {
        self.rom_bank_code * 0x4000 + addr - 0x4000
    }
}

impl CartridgeT for CartridgeMbc2 {
    open spec fn spec_read_rom(&self, addr: u16) -> Result<u8, Fault> {
        if addr < 0x4000 && addr < self.rom@.len() {
            Ok(self.rom@[addr as int])
        } else if addr >= 0x4000 && self.rom_index(addr) < self.rom@.len() {
            Ok(self.rom@[self.rom_index(addr)])
        } else {
            Err(Fault::RomRead(addr))
        }
    }

    /// Only the low four bits of a RAM cell are read; while the RAM is
    /// protected every read gives 0xff.
    open spec fn spec_read_ram(&self, addr: u16) -> Result<u8, Fault> {
        if self.write_protect_on {
            Ok(0xff)
        } else if 0xa000 <= addr < 0xa200 {
            Ok(self.ram[addr - 0xa000] & 0b0000_1111)
        } else {
            Err(Fault::RamRead(addr))
        }
    }

    open spec fn spec_write_rom(self, addr: u16, value: u8) -> Result<Self, Fault> {
        if addr <= 0x0fff {
            Ok(CartridgeMbc2 { write_protect_on: value != 0x0a, ..self })
        } else if 0x2100 <= addr <= 0x21ff {
            Ok(CartridgeMbc2 { rom_bank_code: value & 0b0000_1111, ..self })
        } else {
            Err(Fault::RomWrite(addr))
        }
    }

    /// Only the low four bits of the value are kept.
    open spec fn spec_write_ram(self, addr: u16, value: u8) -> Result<Self, Fault> {
        if !self.write_protect_on && 0xa000 <= addr < 0xa200 {
            Ok(CartridgeMbc2 {
                ram: Box::new(spec_array_update(*self.ram, addr - 0xa000, value & 0b0000_1111)),
                ..self
            })
        } else {
            Err(Fault::RamWrite(addr))
        }
    }

    fn read_rom(&self, addr: u16) -> (r: Result<u8, Fault>) {
        if addr < 0x4000 {
            if (addr as usize) < self.rom.len() {
                return Ok(self.rom[addr as usize]);
            }
        } else {
            let index: usize = self.rom_bank_code as usize * ROM_BANK + addr as usize - 0x4000;
            if index < self.rom.len() {
                return Ok(self.rom[index]);
            }
        }
        Err(Fault::RomRead(addr))
    }

    fn read_ram(&self, addr: u16) -> (r: Result<u8, Fault>) {
        if self.write_protect_on {
            Ok(0xff)
        } else if 0xa000 <= addr && addr < 0xa200 {
            Ok(self.ram[(addr - 0xa000) as usize] & 0b0000_1111)
        } else {
            Err(Fault::RamRead(addr))
        }
    }

    fn write_rom(&mut self, addr: u16, value: u8) -> (r: Result<(), Fault>) {
        if addr <= 0x0fff {
            self.write_protect_on = value != 0x0a;
            Ok(())
        } else if 0x2100 <= addr && addr <= 0x21ff {
            self.rom_bank_code = value & 0b0000_1111;
            Ok(())
        } else {
            Err(Fault::RomWrite(addr))
        }
    }

    fn write_ram(&mut self, addr: u16, value: u8) -> (r: Result<(), Fault>) {
        if !self.write_protect_on && 0xa000 <= addr && addr < 0xa200 {
            self.ram[(addr - 0xa000) as usize] = value & 0b0000_1111;
            Ok(())
        } else {
            Err(Fault::RamWrite(addr))
        }
    }
}

/// A cartridge with an Mbc3-type memory bank controller and its clock
/// registers.
pub struct CartridgeMbc3 {
    /// Whether or not RAM is currently write-protected.
    pub write_protect_on: bool,
    /// ROM bank select. Can take values between 0x01-0x7f (banks #1-128).
    pub rom_bank_code: u8,
    /// RAM bank select. Can take values between 0x00-0x03 (banks #0-3) or 0x08-0x0c (RTC
    /// registers).
    pub ram_bank_code: u8,
    /// 128 banks of 0x4000 bytes each.
    pub rom: Vec<u8>,
    /// 4 banks of 0x2000 bytes each.
    pub ram: Box<[u8; 0x8000]>,
    /// RTC register: seconds counter.
    pub rtc_s: u8,
    /// RTC register: minutes counter.
    pub rtc_m: u8,
    /// RTC register: hours counter.
    pub rtc_h: u8,
    /// RTC register: days (lower) counter.
    pub rtc_dl: u8,
    /// RTC register: days (higher) counter.
    pub rtc_dh: u8,
}

impl CartridgeMbc3 {
    /// A cartridge that holds an image, as it is at power-on.
    pub fn new(bytes: &[u8], has_battery: bool, has_timer: bool) -> (c: Self)
        requires
            bytes@.len() <= 128 * 0x4000,
        ensures
            c.write_protect_on,
            c.rom_bank_code == 0x01,
            c.ram_bank_code == 0x00,
            c.rom@ == rom_image(bytes@, 128 * 0x4000),
            forall|i: int| 0 <= i < 0x8000 ==> c.ram[i] == 0,
            c.rtc_s == 0 && c.rtc_m == 0 && c.rtc_h == 0 && c.rtc_dl == 0 && c.rtc_dh == 0,
    {
        Self {
            write_protect_on: true,
            rom_bank_code: 0x01,
            ram_bank_code: 0x00,
            rom: fill_rom(bytes, 128 * ROM_BANK),
            ram: Box::new([0u8; 0x8000]),
            rtc_s: 0x00,
            rtc_m: 0x00,
            rtc_h: 0x00,
            rtc_dl: 0x00,
            rtc_dh: 0x00,
        }
    }

    /// Where in the ROM the byte at an address above the fixed bank lies:
    /// the bank's base plus the address itself.
    pub open spec fn rom_index(&self, addr: u16) -> int {
        self.rom_bank_code * 0x4000 + addr
    }

    /// Where in the RAM the byte at an address lies while a RAM bank is
    /// selected: the bank's base plus the address itself.
    pub open spec fn ram_index(&self, addr: u16) -> int {
        self.ram_bank_code * 0x2000 + addr
    }
}

impl CartridgeT for CartridgeMbc3 {
    open spec fn spec_read_rom(&self, addr: u16) -> Result<u8, Fault> {
        if addr < 0x4000 && addr < self.rom@.len() {
            Ok(self.rom@[addr as int])
        } else if addr >= 0x4000 && self.rom_index(addr) < self.rom@.len() {
            Ok(self.rom@[self.rom_index(addr)])
        } else {
            Err(Fault::RomRead(addr))
        }
    }

    /// The bank code selects a RAM bank or one of the five clock registers;
    /// while the RAM is protected every read gives 0xff.
    open spec fn spec_read_ram(&self, addr: u16) -> Result<u8, Fault> {
        if self.write_protect_on {
            Ok(0xff)
        } else if self.ram_bank_code <= 0x03 && self.ram_index(addr) < 0x8000 {
            Ok(self.ram[self.ram_index(addr)])
        } else if self.ram_bank_code == 0x08 {
            Ok(self.rtc_s)
        } else if self.ram_bank_code == 0x09 {
            Ok(self.rtc_m)
        } else if self.ram_bank_code == 0x0a {
            Ok(self.rtc_h)
        } else if self.ram_bank_code == 0x0b {
            Ok(self.rtc_dl)
        } else if self.ram_bank_code == 0x0c {
            Ok(self.rtc_dh)
        } else {
            Err(Fault::RamRead(addr))
        }
    }

    open spec fn spec_write_rom(self, addr: u16, value: u8) -> Result<Self, Fault> {
        if addr <= 0x1fff {
            Ok(CartridgeMbc3 { write_protect_on: value != 0x0a, ..self })
        } else if addr <= 0x3fff {
            Ok(CartridgeMbc3 { rom_bank_code: value & 0b0111_1111, ..self })
        } else if addr <= 0x5fff {
            Ok(CartridgeMbc3 { ram_bank_code: value, ..self })
        } else {
            Err(Fault::RomWrite(addr))
        }
    }

    open spec fn spec_write_ram(self, addr: u16, value: u8) -> Result<Self, Fault> {
        if self.write_protect_on {
            Err(Fault::RamWrite(addr))
        } else if self.ram_bank_code <= 0x03 && self.ram_index(addr) < 0x8000 {
            Ok(CartridgeMbc3 { ram: Box::new(spec_array_update(*self.ram, self.ram_index(addr), value)), ..self })
        } else if self.ram_bank_code == 0x08 {
            Ok(CartridgeMbc3 { rtc_s: value, ..self })
        } else if self.ram_bank_code == 0x09 {
            Ok(CartridgeMbc3 { rtc_m: value, ..self })
        } else if self.ram_bank_code == 0x0a {
            Ok(CartridgeMbc3 { rtc_h: value, ..self })
        } else if self.ram_bank_code == 0x0b {
            Ok(CartridgeMbc3 { rtc_dl: value, ..self })
        } else if self.ram_bank_code == 0x0c {
            Ok(CartridgeMbc3 { rtc_dh: value, ..self })
        } else {
            Err(Fault::RamWrite(addr))
        }
    }

    fn read_rom(&self, addr: u16) -> (r: Result<u8, Fault>) {
        if addr < 0x4000 {
            if (addr as usize) < self.rom.len() {
                return Ok(self.rom[addr as usize]);
            }
        } else {
            let index: usize = self.rom_bank_code as usize * ROM_BANK + addr as usize;
            if index < self.rom.len() {
                return Ok(self.rom[index]);
            }
        }
        Err(Fault::RomRead(addr))
    }

    fn read_ram(&self, addr: u16) -> (r: Result<u8, Fault>) {
        if self.write_protect_on {
            return Ok(0xff);
        }
        match self.ram_bank_code {
            0x00..=0x03 => {
                let index: usize = self.ram_bank_code as usize * RAM_BANK + addr as usize;
                if index < 0x8000 {
                    Ok(self.ram[index])
                } else {
                    Err(Fault::RamRead(addr))
                }
            },
            0x08 => Ok(self.rtc_s),
            0x09 => Ok(self.rtc_m),
            0x0a => Ok(self.rtc_h),
            0x0b => Ok(self.rtc_dl),
            0x0c => Ok(self.rtc_dh),
            _ => Err(Fault::RamRead(addr)),
        }
    }

    fn write_rom(&mut self, addr: u16, value: u8) -> (r: Result<(), Fault>) {
        if addr <= 0x1fff {
            self.write_protect_on = value != 0x0a;
        } else if addr <= 0x3fff {
            self.rom_bank_code = value & 0b0111_1111;
        } else if addr <= 0x5fff {
            self.ram_bank_code = value;
        } else {
            return Err(Fault::RomWrite(addr));
        }
        Ok(())
    }

    fn write_ram(&mut self, addr: u16, value: u8) -> (r: Result<(), Fault>) {
        if self.write_protect_on {
            return Err(Fault::RamWrite(addr));
        }
        match self.ram_bank_code {
            0x00..=0x03 => {
                let index: usize = self.ram_bank_code as usize * RAM_BANK + addr as usize;
                if index < 0x8000 {
                    self.ram[index] = value;
                } else {
                    return Err(Fault::RamWrite(addr));
                }
            },
            0x08 => { self.rtc_s = value; },
            0x09 => { self.rtc_m = value; },
            0x0a => { self.rtc_h = value; },
            0x0b => { self.rtc_dl = value; },
            0x0c => { self.rtc_dh = value; },
            _ => { return Err(Fault::RamWrite(addr)); },
        }
        Ok(())
    }
}

/// A cartridge of any of the emulated kinds.
pub enum Cartridge {
    NoMbc(CartridgeNoMbc),
    Mbc1(CartridgeMbc1),
    Mbc2(CartridgeMbc2),
    Mbc3(CartridgeMbc3),
}

impl CartridgeT for Cartridge {
    open spec fn spec_read_rom(&self, addr: u16) -> Result<u8, Fault> {
        match *self {
            Cartridge::NoMbc(c) => c.spec_read_rom(addr),
            Cartridge::Mbc1(c) => c.spec_read_rom(addr),
            Cartridge::Mbc2(c) => c.spec_read_rom(addr),
            Cartridge::Mbc3(c) => c.spec_read_rom(addr),
        }
    }

    open spec fn spec_read_ram(&self, addr: u16) -> Result<u8, Fault> {
        match *self {
            Cartridge::NoMbc(c) => c.spec_read_ram(addr),
            Cartridge::Mbc1(c) => c.spec_read_ram(addr),
            Cartridge::Mbc2(c) => c.spec_read_ram(addr),
            Cartridge::Mbc3(c) => c.spec_read_ram(addr),
        }
    }

    open spec fn spec_write_rom(self, addr: u16, value: u8) -> Result<Self, Fault> {
        match self {
            Cartridge::NoMbc(c) => match c.spec_write_rom(addr, value) {
                Ok(c) => Ok(Cartridge::NoMbc(c)),
                Err(e) => Err(e),
            },
            Cartridge::Mbc1(c) => match c.spec_write_rom(addr, value) {
                Ok(c) => Ok(Cartridge::Mbc1(c)),
                Err(e) => Err(e),
            },
            Cartridge::Mbc2(c) => match c.spec_write_rom(addr, value) {
                Ok(c) => Ok(Cartridge::Mbc2(c)),
                Err(e) => Err(e),
            },
            Cartridge::Mbc3(c) => match c.spec_write_rom(addr, value) {
                Ok(c) => Ok(Cartridge::Mbc3(c)),
                Err(e) => Err(e),
            },
        }
    }

    open spec fn spec_write_ram(self, addr: u16, value: u8) -> Result<Self, Fault> {
        match self {
            Cartridge::NoMbc(c) => match c.spec_write_ram(addr, value) {
                Ok(c) => Ok(Cartridge::NoMbc(c)),
                Err(e) => Err(e),
            },
            Cartridge::Mbc1(c) => match c.spec_write_ram(addr, value) {
                Ok(c) => Ok(Cartridge::Mbc1(c)),
                Err(e) => Err(e),
            },
            Cartridge::Mbc2(c) => match c.spec_write_ram(addr, value) {
                Ok(c) => Ok(Cartridge::Mbc2(c)),
                Err(e) => Err(e),
            },
            Cartridge::Mbc3(c) => match c.spec_write_ram(addr, value) {
                Ok(c) => Ok(Cartridge::Mbc3(c)),
                Err(e) => Err(e),
            },
        }
    }

    fn read_rom(&self, addr: u16) -> (r: Result<u8, Fault>) {
        match self {
            Cartridge::NoMbc(c) => c.read_rom(addr),
            Cartridge::Mbc1(c) => c.read_rom(addr),
            Cartridge::Mbc2(c) => c.read_rom(addr),
            Cartridge::Mbc3(c) => c.read_rom(addr),
        }
    }

    fn read_ram(&self, addr: u16) -> (r: Result<u8, Fault>) {
        match self {
            Cartridge::NoMbc(c) => c.read_ram(addr),
            Cartridge::Mbc1(c) => c.read_ram(addr),
            Cartridge::Mbc2(c) => c.read_ram(addr),
            Cartridge::Mbc3(c) => c.read_ram(addr),
        }
    }

    fn write_rom(&mut self, addr: u16, value: u8) -> (r: Result<(), Fault>) {
        match self {
            Cartridge::NoMbc(c) => c.write_rom(addr, value),
            Cartridge::Mbc1(c) => c.write_rom(addr, value),
            Cartridge::Mbc2(c) => c.write_rom(addr, value),
            Cartridge::Mbc3(c) => c.write_rom(addr, value),
        }
    }

    fn write_ram(&mut self, addr: u16, value: u8) -> (r: Result<(), Fault>) {
        match self {
            Cartridge::NoMbc(c) => c.write_ram(addr, value),
            Cartridge::Mbc1(c) => c.write_ram(addr, value),
            Cartridge::Mbc2(c) => c.write_ram(addr, value),
            Cartridge::Mbc3(c) => c.write_ram(addr, value),
        }
    }
}

/// The most ROM that a controller family can address.
pub open spec fn rom_capacity(mbc_type: MbcType) -> nat {
    match mbc_type {
        MbcType::NoMbc => 2 * 0x4000,
        MbcType::Mbc2 => 16 * 0x4000,
        _ => 128 * 0x4000,
    }
}

/// Whether a cartridge is the one that an image with this controller family
/// starts as: the image in ROM, zeroed RAM, protected RAM, and the
/// controller's registers at their power-on values.
pub open spec fn fresh_cartridge(cartridge: Cartridge, mbc_type: MbcType, bytes: Seq<u8>) -> bool {
    match cartridge {
        Cartridge::NoMbc(c) => {
            &&& mbc_type == MbcType::NoMbc
            &&& c.rom@ == rom_image(bytes, 2 * 0x4000)
            &&& forall|i: int| 0 <= i < 0x2000 ==> c.ram[i] == 0
        },
        Cartridge::Mbc1(c) => {
            &&& mbc_type == MbcType::Mbc1
            &&& c.write_protect_on
            &&& c.rom_bank_code == 0x01
            &&& c.ram_or_upper_rom_bank_code == 0x00
            &&& !c.large_ram_mode
            &&& c.rom@ == rom_image(bytes, 128 * 0x4000)
            &&& forall|i: int| 0 <= i < 0x8000 ==> c.ram[i] == 0
        },
        Cartridge::Mbc2(c) => {
            &&& mbc_type == MbcType::Mbc2
            &&& c.write_protect_on
            &&& c.rom_bank_code == 0x00
            &&& c.rom@ == rom_image(bytes, 16 * 0x4000)
            &&& forall|i: int| 0 <= i < 512 ==> c.ram[i] == 0
        },
        Cartridge::Mbc3(c) => {
            &&& mbc_type == MbcType::Mbc3
            &&& c.write_protect_on
            &&& c.rom_bank_code == 0x01
            &&& c.ram_bank_code == 0x00
            &&& c.rom@ == rom_image(bytes, 128 * 0x4000)
            &&& forall|i: int| 0 <= i < 0x8000 ==> c.ram[i] == 0
            &&& c.rtc_s == 0 && c.rtc_m == 0 && c.rtc_h == 0 && c.rtc_dl == 0 && c.rtc_dh == 0
        },
    }
}

/// What loading an image gives: the error that the header byte earns, an
/// `UnsupportedCartridgeType` for the one recognised family that is not
/// emulated, or else the family of the cartridge that is built.
pub open spec fn load_outcome(cartridge_type: u8) -> Result<MbcType, CartridgeLoadErr> {
    match header_kind(cartridge_type) {
        Err(e) => Err(e),
        Ok((MbcType::Mbc5, _)) => Err(CartridgeLoadErr::UnsupportedCartridgeType(cartridge_type)),
        Ok((mbc_type, _)) => Ok(mbc_type),
    }
}

/// Whether an image can be loaded: it reaches behind the header byte,
/// and where that byte names an emulated family, the image fits into what
/// the family can address.
pub open spec fn loadable(bytes: Seq<u8>) -> bool {
    &&& bytes.len() > 0x147
    &&& load_outcome(bytes[0x147]) matches Ok(mbc_type) ==> bytes.len() <= rom_capacity(mbc_type)
}

/// Tells whether an image can be loaded.
pub fn can_load(bytes: &[u8]) -> (ok: bool)
    ensures
        ok == loadable(bytes@),
{
    if bytes.len() <= HEADER_CARTRIDGE_TYPE {
        return false;
    }
    match classify_header(bytes[HEADER_CARTRIDGE_TYPE]) {
        Err(_) => true,
        Ok((MbcType::Mbc5, _)) => true,
        Ok((MbcType::NoMbc, _)) => bytes.len() <= 2 * 0x4000,
        Ok((MbcType::Mbc2, _)) => bytes.len() <= 16 * 0x4000,
        Ok(_) => bytes.len() <= 128 * 0x4000,
    }
}

/// Builds the cartridge that a ROM image describes. The header byte at
/// 0x147 selects the controller.
pub fn load_cartridge(bytes: &[u8]) -> (r: Result<Cartridge, CartridgeLoadErr>)
    requires
        loadable(bytes@),
    ensures
        match load_outcome(bytes@[0x147]) {
            Ok(mbc_type) => r matches Ok(cartridge) && fresh_cartridge(cartridge, mbc_type, bytes@),
            Err(e) => r matches Err(err) && err == e,
        },
{
    let cartridge_type = bytes[HEADER_CARTRIDGE_TYPE];
    let (mbc_type, has_battery) = match classify_header(cartridge_type) {
        Ok(kind) => kind,
        Err(e) => { return Err(e); },
    };
    let has_timer = cartridge_type == 0x0f || cartridge_type == 0x10;

    match mbc_type {
        MbcType::NoMbc => Ok(Cartridge::NoMbc(CartridgeNoMbc::new(bytes, has_battery))),
        MbcType::Mbc1 => Ok(Cartridge::Mbc1(CartridgeMbc1::new(bytes, has_battery))),
        MbcType::Mbc2 => Ok(Cartridge::Mbc2(CartridgeMbc2::new(bytes, has_battery))),
        MbcType::Mbc3 => Ok(Cartridge::Mbc3(CartridgeMbc3::new(bytes, has_battery, has_timer))),
        MbcType::Mbc5 => Err(CartridgeLoadErr::UnsupportedCartridgeType(cartridge_type)),
    }
}

} // verus!
