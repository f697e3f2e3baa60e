//! Instructions and their operands, with the cost and the length of each.

use vstd::prelude::*;
use vstd::array::spec_array_update;
use crate::fault::{Fault, Partial, outcome, stopping_in, written};
use crate::gameboy::{
    same_surroundings, Gameboy, R, RR, RA, RC, RF, RH, RL, FLAG_Z, FLAG_C, has_flag, pair_value,
    rr_to_u16, test_flag,
};

verus! {

/// Whether an addition or subtraction takes the carry flag in.
#[derive(Debug, Copy, Clone, PartialEq, Eq)]
pub enum CarryMode {
    NoCarry,
    WithCarry,
}

/// Whether a value names one of the eight registers.
pub open spec fn is_reg(r: R) -> bool {
    r < 8
}

/// Whether a value names a pair of registers.
pub open spec fn is_reg_pair(rr: RR) -> bool {
    rr.0 < 8 && rr.1 < 8
}

/// The value of a register pair, high byte first.
pub open spec fn pair_of(gb: Gameboy, rr: RR) -> u16 {
    pair_value(gb.regs[rr.0 as int], gb.regs[rr.1 as int])
}

/// The address in the high page that an 8-bit offset names.
pub open spec fn high_page(offset: u8) -> u16 {
    (0xff00 + offset) as u16
}

/// A source value used to compute the result of an instruction.
#[derive(Debug, Copy, Clone, PartialEq, Eq)]
pub enum Src8 {
    /// An 8-bit register.
    R8(R),
    /// Indirect, address specified by register pair.
    Id(RR),
    /// Indirect, address specified by 0xFF00 | C.
    IdFFRC,
    /// Indirect, address specified by 0xFF00 | immediate 8-bit value.
    IdFF(u8),
    /// Indirect, address specified by immediate 16-bit value.
    IdNN(u16),
    /// An immediate 8-bit value.
    D8(u8),
}

impl Src8 {
    /// Whether the registers that the operand names exist.
    pub open spec fn wf(self) -> bool {
        match self {
            Src8::R8(r) => is_reg(r),
            Src8::Id(rr) => is_reg_pair(rr),
            _ => true,
        }
    }

    /// The value that the operand stands for.
    pub open spec fn spec_read(self, gb: Gameboy) -> Result<u8, Fault> {
        match self {
            Src8::R8(r) => Ok(gb.regs[r as int]),
            Src8::Id(rr) => gb.spec_read(pair_of(gb, rr)),
            Src8::IdFFRC => gb.spec_read(high_page(gb.regs[RC as int])),
            Src8::IdFF(n) => gb.spec_read(high_page(n)),
            Src8::IdNN(nn) => gb.spec_read(nn),
            Src8::D8(n) => Ok(n),
        }
    }

    /// The address of the bus that the operand names, if it names one.
    pub open spec fn place(self, gb: Gameboy) -> Option<u16> {
        match self {
            Src8::R8(_) | Src8::D8(_) => None,
            Src8::Id(rr) => Some(pair_of(gb, rr)),
            Src8::IdFFRC => Some(high_page(gb.regs[RC as int])),
            Src8::IdFF(n) => Some(high_page(n)),
            Src8::IdNN(nn) => Some(nn),
        }
    }

    /// Tells which address of the bus the operand names, if it names one.
    pub fn address(&self, gb: &Gameboy) -> (addr: Option<u16>)
        requires
            self.wf(),
        ensures
            addr == self.place(*gb),
    {
        match *self {
            Src8::R8(_) | Src8::D8(_) => None,
            Src8::Id(rr) => Some(rr_to_u16(gb, rr)),
            Src8::IdFFRC => Some(0xff00 + gb.regs[RC] as u16),
            Src8::IdFF(n) => Some(0xff00 + n as u16),
            Src8::IdNN(nn) => Some(nn),
        }
    }

    /// Reads the value that the operand stands for.
    pub fn read(&self, gb: &Gameboy) -> (r: Result<u8, Fault>)
        requires
            self.wf(),
        ensures
            r == self.spec_read(*gb),
    {
        match *self {
            Src8::R8(r) => Ok(gb.regs[r]),
            Src8::Id(rr) => gb.read(rr_to_u16(gb, rr)),
            Src8::IdFFRC => gb.read(0xff00 + gb.regs[RC] as u16),
            Src8::IdFF(n) => gb.read(0xff00 + n as u16),
            Src8::IdNN(nn) => gb.read(nn),
            Src8::D8(n) => Ok(n),
        }
    }
}

/// A destination to store the result of an instruction.
#[derive(Debug, Copy, Clone, PartialEq, Eq)]
pub enum Dst8 {
    /// An 8-bit register.
    R8(R),
    /// Indirect, address specified by register pair.
    Id(RR),
    /// Indirect, address specified by 0xFF00 | C.
    IdFFRC,
    /// Indirect, address specified by 0xFF00 | immediate 8-bit value.
    IdFF(u8),
    /// Indirect, address specified by immediate 16-bit value.
    IdNN(u16),
}

impl Dst8 {
    /// Whether the registers that the operand names exist.
    pub open spec fn wf(self) -> bool {
        match self {
            Dst8::R8(r) => is_reg(r),
            Dst8::Id(rr) => is_reg_pair(rr),
            _ => true,
        }
    }

    /// The value that the operand holds.
    pub open spec fn spec_read(self, gb: Gameboy) -> Result<u8, Fault> {
        match self {
            Dst8::R8(r) => Ok(gb.regs[r as int]),
            Dst8::Id(rr) => gb.spec_read(pair_of(gb, rr)),
            Dst8::IdFFRC => gb.spec_read(high_page(gb.regs[RC as int])),
            Dst8::IdFF(n) => gb.spec_read(high_page(n)),
            Dst8::IdNN(nn) => gb.spec_read(nn),
        }
    }

    /// The machine after `value` is stored in the operand.
    pub open spec fn spec_write(self, gb: Gameboy, value: u8) -> Result<Gameboy, Fault> {
        match self {
            Dst8::R8(r) => Ok(Gameboy { regs: spec_array_update(gb.regs, r as int, value), ..gb }),
            Dst8::Id(rr) => gb.spec_write(pair_of(gb, rr), value),
            Dst8::IdFFRC => gb.spec_write(high_page(gb.regs[RC as int]), value),
            Dst8::IdFF(n) => gb.spec_write(high_page(n), value),
            Dst8::IdNN(nn) => gb.spec_write(nn, value),
        }
    }

    /// The address of the bus that the operand names, if it names one.
    pub open spec fn place(self, gb: Gameboy) -> Option<u16> {
        match self {
            Dst8::R8(_) => None,
            Dst8::Id(rr) => Some(pair_of(gb, rr)),
            Dst8::IdFFRC => Some(high_page(gb.regs[RC as int])),
            Dst8::IdFF(n) => Some(high_page(n)),
            Dst8::IdNN(nn) => Some(nn),
        }
    }

    /// Tells which address of the bus the operand names, if it names one.
    pub fn address(&self, gb: &Gameboy) -> (addr: Option<u16>)
        requires
            self.wf(),
        ensures
            addr == self.place(*gb),
    {
        match *self {
            Dst8::R8(_) => None,
            Dst8::Id(rr) => Some(rr_to_u16(gb, rr)),
            Dst8::IdFFRC => Some(0xff00 + gb.regs[RC] as u16),
            Dst8::IdFF(n) => Some(0xff00 + n as u16),
            Dst8::IdNN(nn) => Some(nn),
        }
    }

    /// Reads the value that the operand holds.
    pub fn read(&self, gb: &Gameboy) -> (r: Result<u8, Fault>)
        requires
            self.wf(),
        ensures
            r == self.spec_read(*gb),
    {
        match *self {
            Dst8::R8(r) => Ok(gb.regs[r]),
            Dst8::Id(rr) => gb.read(rr_to_u16(gb, rr)),
            Dst8::IdFFRC => gb.read(0xff00 + gb.regs[RC] as u16),
            Dst8::IdFF(n) => gb.read(0xff00 + n as u16),
            Dst8::IdNN(nn) => gb.read(nn),
        }
    }

    /// Stores a value in the operand.
    pub fn write(&self, gb: &mut Gameboy, value: u8) -> (r: Result<(), Fault>)
        requires
            self.wf(),
        ensures
            same_surroundings(*old(gb), *final(gb)),
            written(*old(gb), *final(gb), r, self.spec_write(*old(gb), value)),
    {
        match *self {
            Dst8::R8(r) => {
                gb.regs[r] = value;
                Ok(())
            },
            Dst8::Id(rr) => {
                let addr = rr_to_u16(gb, rr);
                gb.write(addr, value)
            },
            Dst8::IdFFRC => {
                let addr = 0xff00 + gb.regs[RC] as u16;
                gb.write(addr, value)
            },
            Dst8::IdFF(n) => gb.write(0xff00 + n as u16, value),
            Dst8::IdNN(nn) => gb.write(nn, value),
        }
    }
}

/// A 16-bit source value.
#[derive(Debug, Copy, Clone, PartialEq, Eq)]
pub enum Src16 {
    /// A 16-bit register.
    R16(RR),
    /// The stack pointer register.
    RSP,
    /// An immediate 16-bit value.
    D16(u16),
    /// SP + 8-bit immediate value.
    SPD8(i8),
}

impl Src16 {
    /// Whether the registers that the operand names exist.
    pub open spec fn wf(self) -> bool {
        match self {
            Src16::R16(rr) => is_reg_pair(rr),
            _ => true,
        }
    }

    /// The value that the operand stands for. The stack pointer plus a
    /// displacement wraps at the 16-bit boundary.
    pub open spec fn spec_read(self, gb: Gameboy) -> u16 {
        match self {
            Src16::R16(rr) => pair_of(gb, rr),
            Src16::RSP => gb.sp,
            Src16::D16(nn) => nn,
            Src16::SPD8(n) => gb.sp.wrapping_add_signed(n as i16),
        }
    }

    /// Reads the value that the operand stands for.
    pub fn read(&self, gb: &Gameboy) -> (value: u16)
        requires
            self.wf(),
        ensures
            value == self.spec_read(*gb),
    {
        match *self {
            Src16::R16(rr) => rr_to_u16(gb, rr),
            Src16::RSP => gb.sp,
            Src16::D16(nn) => nn,
            Src16::SPD8(n) => gb.sp.wrapping_add_signed(n as i16),
        }
    }
}

/// A 16-bit destination.
#[derive(Debug, Copy, Clone, PartialEq, Eq)]
pub enum Dst16 {
    /// A 16-bit register.
    R16(RR),
    /// The stack pointer register.
    RSP,
    /// Indirect, address specified by immediate 16-bit value.
    IdNN(u16),
}

/// The high byte of a 16-bit value.
pub open spec fn high_byte(value: u16) -> u8 {
    (value / 256) as u8
}

/// The low byte of a 16-bit value.
pub open spec fn low_byte(value: u16) -> u8 {
    (value % 256) as u8
}

/// Splits a 16-bit value into its high and low byte.
pub fn split_u16(value: u16) -> (bytes: (u8, u8))
    ensures
        bytes.0 == high_byte(value),
        bytes.1 == low_byte(value),
        pair_value(bytes.0, bytes.1) == value,
{
    ((value / 256) as u8, (value % 256) as u8)
}

impl Dst16 {
    /// Whether the registers that the operand names exist.
    pub open spec fn wf(self) -> bool {
        match self {
            Dst16::R16(rr) => is_reg_pair(rr),
            _ => true,
        }
    }

    /// The value that the operand holds. In memory the high byte comes
    /// first.
    pub open spec fn spec_read(self, gb: Gameboy) -> Result<u16, Fault> {
        match self {
            Dst16::R16(rr) => Ok(pair_of(gb, rr)),
            Dst16::RSP => Ok(gb.sp),
            Dst16::IdNN(nn) => match gb.spec_read(nn) {
                Err(e) => Err(e),
                Ok(high) => match gb.spec_read(nn.wrapping_add(1)) {
                    Err(e) => Err(e),
                    Ok(low) => Ok(pair_value(high, low)),
                },
            },
        }
    }

    /// The machine after `value` is stored in the operand. A store to
    /// memory stores the stack pointer, whatever `value` is: high byte at
    /// the address, low byte after it. A fault at the second byte leaves
    /// the first byte written.
    pub open spec fn spec_write(self, gb: Gameboy, value: u16) -> Partial<Gameboy> {
        match self {
            Dst16::R16(rr) => Ok(
                Gameboy {
                    regs: spec_array_update(
                        spec_array_update(gb.regs, rr.0 as int, high_byte(value)),
                        rr.1 as int,
                        low_byte(value),
                    ),
                    ..gb
                },
            ),
            Dst16::RSP => Ok(Gameboy { sp: value, ..gb }),
            Dst16::IdNN(nn) => match gb.spec_write(nn, high_byte(gb.sp)) {
                Err(e) => Err((e, gb)),
                Ok(g) => stopping_in(g, g.spec_write(nn.wrapping_add(1), low_byte(g.sp))),
            },
        }
    }

    /// Reads the value that the operand holds.
    pub fn read(&self, gb: &Gameboy) -> (r: Result<u16, Fault>)
        requires
            self.wf(),
        ensures
            r == self.spec_read(*gb),
    {
        match *self {
            Dst16::R16(rr) => Ok(rr_to_u16(gb, rr)),
            Dst16::RSP => Ok(gb.sp),
            Dst16::IdNN(nn) => {
                let high = gb.read(nn)?;
                let low = gb.read(nn.wrapping_add(1))?;
                Ok(high as u16 * 256 + low as u16)
            },
        }
    }

    /// Stores a value in the operand.
    pub fn write(&self, gb: &mut Gameboy, value: u16) -> (r: Result<(), Fault>)
        requires
            self.wf(),
        ensures
            same_surroundings(*old(gb), *final(gb)),
            outcome(*final(gb), r, self.spec_write(*old(gb), value)),
    {
        match *self {
            Dst16::R16(rr) => {
                let (high, low) = split_u16(value);
                gb.regs[rr.0] = high;
                gb.regs[rr.1] = low;
                Ok(())
            },
            Dst16::RSP => {
                gb.sp = value;
                Ok(())
            },
            Dst16::IdNN(nn) => {
                let (high, _) = split_u16(gb.sp);
                gb.write(nn, high)?;
                let (_, low) = split_u16(gb.sp);
                gb.write(nn.wrapping_add(1), low)
            },
        }
    }
}

/// The bitwise operations on the accumulator.
#[derive(Debug, Copy, Clone, PartialEq, Eq)]
pub enum BitwiseOp {
    And,
    Xor,
    Or,
}

/// Up or down by one.
#[derive(Debug, Copy, Clone, PartialEq, Eq)]
pub enum IncDec {
    Inc,
    Dec,
}

/// Addition or subtraction.
#[derive(Debug, Copy, Clone, PartialEq, Eq)]
pub enum AddSub {
    Add,
    Sub,
}

/// The conditions of conditional jumps, calls and returns.
#[derive(Debug, Copy, Clone, PartialEq, Eq)]
pub enum Cond {
    Z,
    Nz,
    C,
    Nc,
}

impl Cond {
    /// Whether the condition holds of the flags.
    pub open spec fn holds(self, gb: Gameboy) -> bool {
        match self {
            Cond::Z => has_flag(gb.regs[RF as int], FLAG_Z),
            Cond::Nz => !has_flag(gb.regs[RF as int], FLAG_Z),
            Cond::C => has_flag(gb.regs[RF as int], FLAG_C),
            Cond::Nc => !has_flag(gb.regs[RF as int], FLAG_C),
        }
    }

    /// Tells whether the condition holds of the flags.
    pub fn check(&self, gb: &Gameboy) -> (b: bool)
        ensures
            b == self.holds(*gb),
    {
        match *self {
            Cond::Z => test_flag(gb.regs[RF], FLAG_Z),
            Cond::Nz => !test_flag(gb.regs[RF], FLAG_Z),
            Cond::C => test_flag(gb.regs[RF], FLAG_C),
            Cond::Nc => !test_flag(gb.regs[RF], FLAG_C),
        }
    }
}

/// A decoded instruction with its operands.
#[derive(Debug, Copy, Clone, PartialEq, Eq)]
pub enum Instr {
    // Control/misc
    Nop,
    Stop,
    Halt,
    Di,
    Ei,
    Ccf,
    Scf,
    Daa,
    Cpl,
    // 8-bit load
    Ld(Dst8, Src8),
    LdInc(Dst8, Src8),
    LdDec(Dst8, Src8),
    // 16-bit load
    Ld16(Dst16, Src16),
    Push(RR),
    Pop(RR),
    // 8-bit arithmetic
    Inc(Dst8),
    Dec(Dst8),
    Add(Src8),
    Adc(Src8),
    Sub(Src8),
    Sbc(Src8),
    And(Src8),
    Xor(Src8),
    Or(Src8),
    Cp(Src8),
    // 16-bit arithmetic
    Add16HL(Src16),
    Add16SP(i8),
    Inc16(Dst16),
    Dec16(Dst16),
    // Control-flow
    Jp(Src16),
    JpCC(Cond, u16),
    Jr(i8),
    JrCC(Cond, i8),
    Call(u16),
    CallCC(Cond, u16),
    Ret,
    RetCC(Cond),
    Reti,
    Rst(u8),
    // Rotates, shifts, bit operations
    Rlca,
    Rla,
    Rrca,
    Rra,
    Rlc(Dst8),
    Rrc(Dst8),
    Rl(Dst8),
    Rr(Dst8),
    Sla(Dst8),
    Sra(Dst8),
    Srl(Dst8),
    Bit(u8, Dst8),
    Res(u8, Dst8),
    /// Sets one bit of the operand.
    SetBit(u8, Dst8),
    Swap(Dst8),
}

/// Whether an 8-bit operand is the accumulator.
pub open spec fn is_acc(r: R) -> bool {
    r == RA
}

/// Whether a register pair is HL.
pub open spec fn is_hl(rr: RR) -> bool {
    rr.0 == RH && rr.1 == RL
}

/// The cost in machine cycles of an 8-bit load, for the pairs of operands
/// that the instruction set has.
pub open spec fn ld_cycles(dst: Dst8, src: Src8) -> Option<u64> {
    match (dst, src) {
        (Dst8::R8(_), Src8::R8(_)) => Some(1),
        (Dst8::R8(_), Src8::D8(_)) => Some(2),
        (Dst8::Id(_), Src8::R8(_)) => Some(2),
        (Dst8::R8(_), Src8::Id(_)) => Some(2),
        (Dst8::IdFFRC, Src8::R8(r)) => if is_acc(r) { Some(2) } else { None },
        (Dst8::R8(r), Src8::IdFFRC) => if is_acc(r) { Some(2) } else { None },
        (Dst8::IdFF(_), Src8::R8(r)) => if is_acc(r) { Some(3) } else { None },
        (Dst8::R8(r), Src8::IdFF(_)) => if is_acc(r) { Some(3) } else { None },
        (Dst8::Id(rr), Src8::D8(_)) => if is_hl(rr) { Some(3) } else { None },
        (Dst8::IdNN(_), Src8::R8(r)) => if is_acc(r) { Some(4) } else { None },
        (Dst8::R8(r), Src8::IdNN(_)) => if is_acc(r) { Some(4) } else { None },
        _ => None,
    }
}

/// The length in bytes of an 8-bit load, for the pairs of operands that the
/// instruction set has.
pub open spec fn ld_size(dst: Dst8, src: Src8) -> Option<u16> {
    match (dst, src) {
        (Dst8::R8(_), Src8::R8(_)) => Some(1),
        (Dst8::R8(_), Src8::D8(_)) => Some(2),
        (Dst8::Id(_), Src8::R8(_)) => Some(1),
        (Dst8::R8(_), Src8::Id(_)) => Some(1),
        (Dst8::IdFFRC, Src8::R8(r)) => if is_acc(r) { Some(1) } else { None },
        (Dst8::R8(r), Src8::IdFFRC) => if is_acc(r) { Some(1) } else { None },
        (Dst8::IdFF(_), Src8::R8(r)) => if is_acc(r) { Some(2) } else { None },
        (Dst8::R8(r), Src8::IdFF(_)) => if is_acc(r) { Some(2) } else { None },
        (Dst8::Id(rr), Src8::D8(_)) => if is_hl(rr) { Some(2) } else { None },
        (Dst8::IdNN(_), Src8::R8(r)) => if is_acc(r) { Some(3) } else { None },
        (Dst8::R8(r), Src8::IdNN(_)) => if is_acc(r) { Some(3) } else { None },
        _ => None,
    }
}

/// The cost in machine cycles of a 16-bit load, for the pairs of operands
/// that the instruction set has.
pub open spec fn ld16_cycles(dst: Dst16, src: Src16) -> Option<u64> {
    match (dst, src) {
        (Dst16::RSP, Src16::R16(rr)) => if is_hl(rr) { Some(2) } else { None },
        (Dst16::RSP, Src16::D16(_)) => Some(3),
        (Dst16::R16(_), Src16::D16(_)) => Some(3),
        (Dst16::R16(rr), Src16::SPD8(_)) => if is_hl(rr) { Some(3) } else { None },
        (Dst16::IdNN(_), Src16::RSP) => Some(5),
        _ => None,
    }
}

/// The cost of an operation on the operand of a prefixed instruction: more
/// where the operand is the byte that HL points at.
pub open spec fn prefixed_cycles(dst: Dst8, at_hl: u64) -> u64 {
    match dst {
        Dst8::Id(rr) => if is_hl(rr) { at_hl } else { 2 },
        _ => 2,
    }
}

impl Instr {
    /// Whether the instruction is one that the instruction set has: its
    /// registers exist and its operands are a pair that some opcode encodes.
    pub open spec fn wf(self) -> bool {
        match self {
            Instr::Ld(dst, src) => dst.wf() && src.wf() && ld_cycles(dst, src) is Some,
            Instr::LdInc(dst, src) | Instr::LdDec(dst, src) => dst.wf() && src.wf(),
            Instr::Ld16(dst, src) => dst.wf() && src.wf() && ld16_cycles(dst, src) is Some,
            Instr::Push(rr) | Instr::Pop(rr) => is_reg_pair(rr),
            Instr::Inc(dst) | Instr::Dec(dst) => dst.wf(),
            Instr::Add(src) | Instr::Adc(src) | Instr::Sub(src) | Instr::Sbc(src) | Instr::And(src)
            | Instr::Xor(src) | Instr::Or(src) | Instr::Cp(src) => src.wf(),
            Instr::Add16HL(src) => src.wf(),
            Instr::Inc16(dst) | Instr::Dec16(dst) => dst.wf(),
            Instr::Jp(src) => match src {
                Src16::D16(_) => true,
                Src16::R16(rr) => is_hl(rr),
                _ => false,
            },
            Instr::Rlc(dst) | Instr::Rrc(dst) | Instr::Rl(dst) | Instr::Rr(dst) | Instr::Sla(dst)
            | Instr::Sra(dst) | Instr::Srl(dst) | Instr::Swap(dst) => dst.wf(),
            Instr::Bit(bt, dst) | Instr::Res(bt, dst) | Instr::SetBit(bt, dst) => bt < 8 && dst.wf(),
            _ => true,
        }
    }

    /// The number of machine cycles that the instruction takes. A
    /// conditional jump, call or return costs less when it is not taken.
    pub open spec fn cycles(self, gb: Gameboy) -> u64 {
        match self {
            Instr::Nop | Instr::Stop | Instr::Halt | Instr::Di | Instr::Ei | Instr::Ccf | Instr::Scf
            | Instr::Daa | Instr::Cpl => 1,
            Instr::Ld(dst, src) => match ld_cycles(dst, src) {
                Some(n) => n,
                None => 0,
            },
            Instr::LdInc(_, _) | Instr::LdDec(_, _) => 2,
            Instr::Ld16(dst, src) => match ld16_cycles(dst, src) {
                Some(n) => n,
                None => 0,
            },
            Instr::Push(_) => 4,
            Instr::Pop(_) => 3,
            Instr::Inc(dst) | Instr::Dec(dst) => match dst {
                Dst8::R8(_) => 1,
                _ => 3,
            },
            Instr::Add(src) | Instr::Adc(src) | Instr::Sub(src) | Instr::Sbc(src) | Instr::And(src)
            | Instr::Xor(src) | Instr::Or(src) | Instr::Cp(src) => match src {
                Src8::R8(_) => 1,
                _ => 2,
            },
            Instr::Add16HL(_) => 2,
            Instr::Add16SP(_) => 4,
            Instr::Inc16(_) | Instr::Dec16(_) => 2,
            Instr::Jp(src) => match src {
                Src16::D16(_) => 4,
                _ => 1,
            },
            Instr::JpCC(cond, _) => if cond.holds(gb) { 4 } else { 3 },
            Instr::Jr(_) => 3,
            Instr::JrCC(cond, _) => if cond.holds(gb) { 3 } else { 2 },
            Instr::Call(_) => 6,
            Instr::CallCC(cond, _) => if cond.holds(gb) { 6 } else { 3 },
            Instr::Ret => 4,
            Instr::RetCC(cond) => if cond.holds(gb) { 5 } else { 2 },
            Instr::Reti => 4,
            Instr::Rst(_) => 4,
            Instr::Rlca | Instr::Rla | Instr::Rrca | Instr::Rra => 1,
            Instr::Rlc(dst) | Instr::Rrc(dst) | Instr::Rl(dst) | Instr::Rr(dst) | Instr::Sla(dst)
            | Instr::Sra(dst) | Instr::Srl(dst) | Instr::Swap(dst) => prefixed_cycles(dst, 4),
            Instr::Bit(_, dst) => prefixed_cycles(dst, 3),
            Instr::Res(_, dst) | Instr::SetBit(_, dst) => prefixed_cycles(dst, 4),
        }
    }

    /// The length in bytes of the instruction's encoding.
    pub open spec fn encoded_length(self) -> u16 {
        match self {
            Instr::Nop | Instr::Halt | Instr::Di | Instr::Ei | Instr::Ccf | Instr::Scf | Instr::Daa
            | Instr::Cpl => 1,
            Instr::Stop => 2,
            Instr::Ld(dst, src) => match ld_size(dst, src) {
                Some(n) => n,
                None => 0,
            },
            Instr::LdInc(_, _) | Instr::LdDec(_, _) => 1,
            Instr::Ld16(_, src) => match src {
                Src16::R16(rr) => if is_hl(rr) { 1 } else { 3 },
                Src16::SPD8(_) => 2,
                _ => 3,
            },
            Instr::Push(_) | Instr::Pop(_) => 1,
            Instr::Inc(_) | Instr::Dec(_) => 1,
            Instr::Add(src) | Instr::Adc(src) | Instr::Sub(src) | Instr::Sbc(src) | Instr::And(src)
            | Instr::Xor(src) | Instr::Or(src) | Instr::Cp(src) => match src {
                Src8::D8(_) => 2,
                _ => 1,
            },
            Instr::Add16HL(_) => 1,
            Instr::Add16SP(_) => 2,
            Instr::Inc16(_) | Instr::Dec16(_) => 1,
            Instr::Jp(src) => match src {
                Src16::D16(_) => 3,
                _ => 1,
            },
            Instr::JpCC(_, _) | Instr::Call(_) | Instr::CallCC(_, _) => 3,
            Instr::Jr(_) | Instr::JrCC(_, _) => 2,
            Instr::Ret | Instr::RetCC(_) | Instr::Reti | Instr::Rst(_) => 1,
            Instr::Rlca | Instr::Rla | Instr::Rrca | Instr::Rra => 1,
            Instr::Rlc(_) | Instr::Rrc(_) | Instr::Rl(_) | Instr::Rr(_) | Instr::Sla(_) | Instr::Sra(_)
            | Instr::Srl(_) | Instr::Bit(_, _) | Instr::Res(_, _) | Instr::SetBit(_, _) | Instr::Swap(_) => 2,
        }
    }

    /// Whether executing the instruction sets the program counter: a
    /// jump, call, return or restart does, if it is taken.
    pub open spec fn sets_pc(self, gb: Gameboy) -> bool {
        match self {
            Instr::Jp(_) | Instr::Jr(_) | Instr::Call(_) | Instr::Ret | Instr::Reti | Instr::Rst(_) => true,
            Instr::JpCC(cond, _) | Instr::JrCC(cond, _) | Instr::CallCC(cond, _) | Instr::RetCC(cond) => cond.holds(
                gb,
            ),
            _ => false,
        }
    }

    /// The number of bytes by which the program counter advances behind
    /// the instruction: the length of its encoding, or 0 where the
    /// instruction sets the program counter itself.
    pub open spec fn length(self, gb: Gameboy) -> u16 {
        if self.sets_pc(gb) {
            0
        } else {
            self.encoded_length()
        }
    }

    /// The number of machine cycles an instruction takes to execute.
    pub fn num_cycles(&self, gb: &Gameboy) -> (n: u64)
        requires
            self.wf(),
        ensures
            n == self.cycles(*gb),
            1 <= n <= 6,
    {
        match *self {
            Instr::Nop => 1,
            Instr::Stop => 1,
            Instr::Halt => 1,
            Instr::Di => 1,
            Instr::Ei => 1,
            Instr::Ccf => 1,
            Instr::Scf => 1,
            Instr::Daa => 1,
            Instr::Cpl => 1,
            Instr::Ld(dst, src) => match (dst, src) {
                (Dst8::R8(_), Src8::R8(_)) => 1,
                (Dst8::R8(_), Src8::D8(_)) => 2,
                (Dst8::Id(_), Src8::R8(_)) | (Dst8::R8(_), Src8::Id(_)) => 2,
                (Dst8::IdFFRC, Src8::R8(_)) | (Dst8::R8(_), Src8::IdFFRC) => 2,
                (Dst8::IdFF(_), Src8::R8(_)) | (Dst8::R8(_), Src8::IdFF(_)) => 3,
                (Dst8::Id(_), Src8::D8(_)) => 3,
                _ => 4,
            },
            Instr::LdInc(_, _) | Instr::LdDec(_, _) => 2,
            Instr::Ld16(dst, src) => match (dst, src) {
                (Dst16::RSP, Src16::R16(_)) => 2,
                (Dst16::IdNN(_), _) => 5,
                _ => 3,
            },
            Instr::Push(_) => 4,
            Instr::Pop(_) => 3,
            Instr::Inc(dst) | Instr::Dec(dst) => match dst {
                Dst8::R8(_) => 1,
                _ => 3,
            },
            Instr::Add(src) | Instr::Adc(src) | Instr::Sub(src) | Instr::Sbc(src) | Instr::And(src)
            | Instr::Xor(src) | Instr::Or(src) | Instr::Cp(src) => match src {
                Src8::R8(_) => 1,
                _ => 2,
            },
            Instr::Add16HL(_) => 2,
            Instr::Add16SP(_) => 4,
            Instr::Inc16(_) | Instr::Dec16(_) => 2,
            Instr::Jp(src) => match src {
                Src16::D16(_) => 4,
                _ => 1,
            },
            Instr::JpCC(cond, _) => if cond.check(gb) { 4 } else { 3 },
            Instr::Jr(_) => 3,
            Instr::JrCC(cond, _) => if cond.check(gb) { 3 } else { 2 },
            Instr::Call(_) => 6,
            Instr::CallCC(cond, _) => if cond.check(gb) { 6 } else { 3 },
            Instr::Ret => 4,
            Instr::RetCC(cond) => if cond.check(gb) { 5 } else { 2 },
            Instr::Reti => 4,
            Instr::Rst(_) => 4,
            Instr::Rlca | Instr::Rla | Instr::Rrca | Instr::Rra => 1,
            Instr::Rlc(dst) | Instr::Rrc(dst) | Instr::Rl(dst) | Instr::Rr(dst) | Instr::Sla(dst)
            | Instr::Sra(dst) | Instr::Srl(dst) | Instr::Swap(dst) | Instr::Res(_, dst)
            | Instr::SetBit(_, dst) => match dst {
                Dst8::Id(rr) => if rr.0 == RH && rr.1 == RL { 4 } else { 2 },
                _ => 2,
            },
            Instr::Bit(_, dst) => match dst {
                Dst8::Id(rr) => if rr.0 == RH && rr.1 == RL { 3 } else { 2 },
                _ => 2,
            },
        }
    }

    /// The length, in bytes, of an instruction. Used to calculate next PC value.
    /// For jump instructions, 0 is returned if PC would be directly modified by the instruction.
    pub fn size(&self, gb: &Gameboy) -> (n: u16)
        requires
            self.wf(),
        ensures
            n == self.length(*gb),
            n <= 3,
    {
        match *self {
            Instr::Nop => 1,
            Instr::Stop => 2,
            Instr::Halt => 1,
            Instr::Di => 1,
            Instr::Ei => 1,
            Instr::Ccf => 1,
            Instr::Scf => 1,
            Instr::Daa => 1,
            Instr::Cpl => 1,
            Instr::Ld(dst, src) => match (dst, src) {
                (Dst8::R8(_), Src8::R8(_)) => 1,
                (Dst8::R8(_), Src8::D8(_)) => 2,
                (Dst8::Id(_), Src8::R8(_)) | (Dst8::R8(_), Src8::Id(_)) => 1,
                (Dst8::IdFFRC, Src8::R8(_)) | (Dst8::R8(_), Src8::IdFFRC) => 1,
                (Dst8::IdFF(_), Src8::R8(_)) | (Dst8::R8(_), Src8::IdFF(_)) => 2,
                (Dst8::Id(_), Src8::D8(_)) => 2,
                _ => 3,
            },
            Instr::LdInc(_, _) | Instr::LdDec(_, _) => 1,
            Instr::Ld16(_, src) => match src {
                Src16::R16(rr) => if rr.0 == RH && rr.1 == RL { 1 } else { 3 },
                Src16::SPD8(_) => 2,
                _ => 3,
            },
            Instr::Push(_) | Instr::Pop(_) => 1,
            Instr::Inc(_) | Instr::Dec(_) => 1,
            Instr::Add(src) | Instr::Adc(src) | Instr::Sub(src) | Instr::Sbc(src) | Instr::And(src)
            | Instr::Xor(src) | Instr::Or(src) | Instr::Cp(src) => match src {
                Src8::D8(_) => 2,
                _ => 1,
            },
            Instr::Add16HL(_) => 1,
            Instr::Add16SP(_) => 2,
            Instr::Inc16(_) | Instr::Dec16(_) => 1,
            Instr::Jp(_) => 0,
            Instr::JpCC(cond, _) => if cond.check(gb) { 0 } else { 3 },
            Instr::Jr(_) => 0,
            Instr::JrCC(cond, _) => if cond.check(gb) { 0 } else { 2 },
            Instr::Call(_) => 0,
            Instr::CallCC(cond, _) => if cond.check(gb) { 0 } else { 3 },
            Instr::Ret => 0,
            Instr::RetCC(cond) => if cond.check(gb) { 0 } else { 1 },
            Instr::Reti => 0,
            Instr::Rst(_) => 0,
            Instr::Rlca | Instr::Rla | Instr::Rrca | Instr::Rra => 1,
            Instr::Rlc(_) => 2,
            Instr::Rrc(_) => 2,
            Instr::Rl(_) => 2,
            Instr::Rr(_) => 2,
            Instr::Sla(_) => 2,
            Instr::Sra(_) => 2,
            Instr::Srl(_) => 2,
            Instr::Bit(_, _) => 2,
            Instr::Res(_, _) => 2,
            Instr::SetBit(_, _) => 2,
            Instr::Swap(_) => 2,
        }
    }
}

impl Instr {
    /// The length, in bytes, of an instruction's encoding, whether or not
    /// the instruction sets the program counter.
    pub fn encoded_size(&self) -> (n: u16)
        requires
            self.wf(),
        ensures
            n == self.encoded_length(),
            1 <= n <= 3,
    {
        match *self {
            Instr::Jp(src) => match src {
                Src16::D16(_) => 3,
                _ => 1,
            },
            Instr::JpCC(_, _) | Instr::Call(_) | Instr::CallCC(_, _) => 3,
            Instr::Jr(_) | Instr::JrCC(_, _) => 2,
            Instr::Ret | Instr::RetCC(_) | Instr::Reti | Instr::Rst(_) => 1,
            Instr::Stop => 2,
            Instr::Ld(dst, src) => match (dst, src) {
                (Dst8::R8(_), Src8::R8(_)) => 1,
                (Dst8::R8(_), Src8::D8(_)) => 2,
                (Dst8::Id(_), Src8::R8(_)) | (Dst8::R8(_), Src8::Id(_)) => 1,
                (Dst8::IdFFRC, Src8::R8(_)) | (Dst8::R8(_), Src8::IdFFRC) => 1,
                (Dst8::IdFF(_), Src8::R8(_)) | (Dst8::R8(_), Src8::IdFF(_)) => 2,
                (Dst8::Id(_), Src8::D8(_)) => 2,
                _ => 3,
            },
            Instr::Ld16(_, src) => match src {
                Src16::R16(rr) => if rr.0 == RH && rr.1 == RL { 1 } else { 3 },
                Src16::SPD8(_) => 2,
                _ => 3,
            },
            Instr::Add(src) | Instr::Adc(src) | Instr::Sub(src) | Instr::Sbc(src) | Instr::And(src)
            | Instr::Xor(src) | Instr::Or(src) | Instr::Cp(src) => match src {
                Src8::D8(_) => 2,
                _ => 1,
            },
            Instr::Add16SP(_) => 2,
            Instr::Rlc(_) | Instr::Rrc(_) | Instr::Rl(_) | Instr::Rr(_) | Instr::Sla(_) | Instr::Sra(_)
            | Instr::Srl(_) | Instr::Bit(_, _) | Instr::Res(_, _) | Instr::SetBit(_, _) | Instr::Swap(_) => 2,
            _ => 1,
        }
    }
}

/// The addresses of the bus that an instruction names with its 8-bit
/// operands.
#[derive(Debug, Copy, Clone, PartialEq, Eq)]
pub struct Accesses {
    /// The address that the instruction reads, if it reads one.
    pub read: Option<u16>,
    /// The address that the instruction writes, if it writes one.
    pub written: Option<u16>,
}

impl Instr {
    /// The addresses of the bus that the instruction names with its 8-bit
    /// operands: a load reads its source and writes its destination; an
    /// instruction that changes an operand in place reads and writes it;
    /// arithmetic on the accumulator and a bit test read their operand.
    /// The stack and the instruction's own bytes are not among them.
    pub open spec fn places(self, gb: Gameboy) -> Accesses {
        match self {
            Instr::Ld(dst, src) | Instr::LdInc(dst, src) | Instr::LdDec(dst, src) => Accesses {
                read: src.place(gb),
                written: dst.place(gb),
            },
            Instr::Inc(dst) | Instr::Dec(dst) | Instr::Rlc(dst) | Instr::Rrc(dst) | Instr::Rl(dst) | Instr::Rr(dst)
            | Instr::Sla(dst) | Instr::Sra(dst) | Instr::Srl(dst) | Instr::Swap(dst) | Instr::Res(_, dst)
            | Instr::SetBit(_, dst) => Accesses { read: dst.place(gb), written: dst.place(gb) },
            Instr::Bit(_, dst) => Accesses { read: dst.place(gb), written: None },
            Instr::Add(src) | Instr::Adc(src) | Instr::Sub(src) | Instr::Sbc(src) | Instr::And(src)
            | Instr::Xor(src) | Instr::Or(src) | Instr::Cp(src) => Accesses { read: src.place(gb), written: None },
            _ => Accesses { read: None, written: None },
        }
    }

    /// Tells which addresses of the bus the instruction names with its
    /// 8-bit operands, so that a caller can warn of an access behind which
    /// nothing stands.
    pub fn accesses(&self, gb: &Gameboy) -> (named: Accesses)
        requires
            self.wf(),
        ensures
            named == self.places(*gb),
    {
        match *self {
            Instr::Ld(dst, src) | Instr::LdInc(dst, src) | Instr::LdDec(dst, src) => Accesses {
                read: src.address(gb),
                written: dst.address(gb),
            },
            Instr::Inc(dst) | Instr::Dec(dst) | Instr::Rlc(dst) | Instr::Rrc(dst) | Instr::Rl(dst) | Instr::Rr(dst)
            | Instr::Sla(dst) | Instr::Sra(dst) | Instr::Srl(dst) | Instr::Swap(dst) | Instr::Res(_, dst)
            | Instr::SetBit(_, dst) => {
                let addr = dst.address(gb);
                Accesses { read: addr, written: addr }
            },
            Instr::Bit(_, dst) => Accesses { read: dst.address(gb), written: None },
            Instr::Add(src) | Instr::Adc(src) | Instr::Sub(src) | Instr::Sbc(src) | Instr::And(src)
            | Instr::Xor(src) | Instr::Or(src) | Instr::Cp(src) => Accesses { read: src.address(gb), written: None },
            _ => Accesses { read: None, written: None },
        }
    }
}

} // verus!
