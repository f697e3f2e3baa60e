//! The execution routines, one per instruction family. Each states the
//! machine that it leaves as a function of the machine that it finds.

use vstd::prelude::*;
use vstd::array::spec_array_update;
use crate::fault::{Fault, Partial, outcome, stopping_in, written};
use crate::gameboy::{
    same_surroundings, Gameboy, RR, RA, RF, RH, RL, RHL, FLAG_Z, FLAG_N, FLAG_H, FLAG_C, has_flag,
    with_flag, set_flag, test_flag, pair_value, rr_to_u16,
};
use crate::cpu::instruction::{
    CarryMode, Src8, Dst8, Src16, Dst16, BitwiseOp, IncDec, AddSub, Cond, pair_of, is_reg_pair,
    high_byte, low_byte, split_u16,
};

verus! {

/// The flags register.
pub open spec fn flags_of(gb: Gameboy) -> u8 {
    gb.regs[RF as int]
}

/// The accumulator.
pub open spec fn acc_of(gb: Gameboy) -> u8 {
    gb.regs[RA as int]
}

/// The machine with one register replaced.
pub open spec fn with_reg(gb: Gameboy, r: usize, value: u8) -> Gameboy {
    Gameboy { regs: spec_array_update(gb.regs, r as int, value), ..gb }
}

/// The machine with the flags register replaced.
pub open spec fn with_flags(gb: Gameboy, f: u8) -> Gameboy {
    with_reg(gb, RF, f)
}

/// The machine with a register pair replaced, high byte first.
pub open spec fn with_pair(gb: Gameboy, rr: RR, value: u16) -> Gameboy {
    with_reg(with_reg(gb, rr.0, high_byte(value)), rr.1, low_byte(value))
}

/// A flags byte made of the four flags alone.
pub open spec fn flags_byte(z: bool, n: bool, h: bool, c: bool) -> u8 {
    with_flag(with_flag(with_flag(with_flag(0, FLAG_Z, z), FLAG_N, n), FLAG_H, h), FLAG_C, c)
}

/// Packs four flags into a flags byte.
pub fn pack_flags(z: bool, n: bool, h: bool, c: bool) -> (f: u8)
    ensures
        f == flags_byte(z, n, h, c),
{
    set_flag(set_flag(set_flag(set_flag(0, FLAG_Z, z), FLAG_N, n), FLAG_H, h), FLAG_C, c)
}

/// Whether adding two bytes carries out of bit 3: whether the sum of their
/// low nibbles exceeds a nibble.
pub open spec fn half_carry(x: u8, y: u8) -> bool {
    (x & 0x0f) + (y & 0x0f) > 0x0f
}

/// Whether adding two bytes carries out of bit 7.
pub open spec fn carry(x: u8, y: u8) -> bool {
    x + y > 0xff
}

/// The two's complement of a byte.
pub open spec fn negated(x: u8) -> u8 {
    0u8.wrapping_sub(x)
}

proof fn lemma_low_nibble(x: u8)
    by (bit_vector)
    ensures
        x & 0x0f <= 0x0f,
{
}

/// The Zero flag of a result byte, as a flags byte.
pub fn compute_zero_flag(x: u8) -> (f: u8)
    ensures
        f == (if x == 0 { FLAG_Z } else { 0 }),
{
    if x == 0 { FLAG_Z } else { 0 }
}

/// The Half-carry flag of adding two bytes, as a flags byte.
pub fn compute_half_carry_flag(x: u8, y: u8) -> (f: u8)
    ensures
        f == (if half_carry(x, y) { FLAG_H } else { 0 }),
{
    // Compute a 4-bit sum, check if the 5th bit is 1.
    // If so, then a half-carry occurred.
    proof {
        lemma_low_nibble(x);
        lemma_low_nibble(y);
    }
    let sum_4_bit = (x & 0x0f) + (y & 0x0f);
    if sum_4_bit > 0x0f { FLAG_H } else { 0 }
}

/// The Carry flag of adding two bytes, as a flags byte.
pub fn compute_carry_flag(x: u8, y: u8) -> (f: u8)
    ensures
        f == (if carry(x, y) { FLAG_C } else { 0 }),
{
    // Compute an 8-bit sum, check if the 9th bit is 1.
    // If so, then a carry occurred.
    let sum_8_bit = (x as u16) + (y as u16);
    if sum_8_bit > 0xff { FLAG_C } else { 0 }
}

/// Marks the machine as stopped.
pub fn stop(gb: &mut Gameboy)
    ensures
        same_surroundings(*old(gb), *final(gb)),
        *final(gb) == (Gameboy { stopped: true, ..*old(gb) }),
{
    gb.stopped = true;
}

/// Parks the CPU until an interrupt, if interrupts are enabled.
pub fn halt(gb: &mut Gameboy)
    ensures
        same_surroundings(*old(gb), *final(gb)),
        *final(gb) == (Gameboy { halted: old(gb).halted || old(gb).ime, ..*old(gb) }),
{
    if gb.ime {
        gb.halted = true;
    }
}

/// Disables interrupts, at once.
pub fn di(gb: &mut Gameboy)
    ensures
        same_surroundings(*old(gb), *final(gb)),
        *final(gb) == (Gameboy { ime: false, ..*old(gb) }),
{
    gb.ime = false;
}

/// Enables interrupts, at once.
pub fn ei(gb: &mut Gameboy)
    ensures
        same_surroundings(*old(gb), *final(gb)),
        *final(gb) == (Gameboy { ime: true, ..*old(gb) }),
{
    gb.ime = true;
}

/// The flags after complementing the carry: N and H cleared, C inverted.
pub open spec fn ccf_flags(f: u8) -> u8 {
    with_flag(with_flag(with_flag(f, FLAG_N, false), FLAG_H, false), FLAG_C, !has_flag(f, FLAG_C))
}

/// Complements the carry flag.
pub fn ccf(gb: &mut Gameboy)
    ensures
        same_surroundings(*old(gb), *final(gb)),
        *final(gb) == with_flags(*old(gb), ccf_flags(flags_of(*old(gb)))),
{
    let f = gb.regs[RF];
    let c = test_flag(f, FLAG_C);
    gb.regs[RF] = set_flag(set_flag(set_flag(f, FLAG_N, false), FLAG_H, false), FLAG_C, !c);
}

/// The flags after setting the carry: N and H cleared, C set.
pub open spec fn scf_flags(f: u8) -> u8 {
    with_flag(with_flag(with_flag(f, FLAG_N, false), FLAG_H, false), FLAG_C, true)
}

/// Sets the carry flag.
pub fn scf(gb: &mut Gameboy)
    ensures
        same_surroundings(*old(gb), *final(gb)),
        *final(gb) == with_flags(*old(gb), scf_flags(flags_of(*old(gb)))),
{
    let f = gb.regs[RF];
    gb.regs[RF] = set_flag(set_flag(set_flag(f, FLAG_N, false), FLAG_H, false), FLAG_C, true);
}

/// The decimal-adjust table: for the flags N, C, H and the two nibbles of
/// the accumulator, the constant to add to the accumulator and the new
/// carry; `None` for the combinations that the table does not hold.
pub open spec fn daa_adjust(n: bool, c: bool, h: bool, high: u8, low: u8) -> Option<(u8, bool)> {
    if !n && !c && !h {
        if high <= 0x09 && low <= 0x09 {
            Some((0x00u8, false))
        } else if high <= 0x08 && 0x0a <= low <= 0x0f {
            Some((0x06u8, false))
        } else if 0x0a <= high <= 0x0f && low <= 0x09 {
            Some((0x60u8, true))
        } else if 0x09 <= high <= 0x0f && 0x0a <= low <= 0x0f {
            Some((0x66u8, true))
        } else {
            None
        }
    } else if !n && !c && h {
        if high <= 0x09 && low <= 0x03 {
            Some((0x06u8, false))
        } else if 0x0a <= high <= 0x0f && low <= 0x03 {
            Some((0x66u8, true))
        } else {
            None
        }
    } else if !n && c && !h {
        if high <= 0x02 && low <= 0x09 {
            Some((0x60u8, true))
        } else if high <= 0x02 && 0x0a <= low <= 0x0f {
            Some((0x66u8, true))
        } else {
            None
        }
    } else if !n && c && h {
        if high <= 0x03 && low <= 0x03 {
            Some((0x66u8, true))
        } else {
            None
        }
    } else if n && !c && !h {
        if high <= 0x09 && low <= 0x09 {
            Some((0x00u8, false))
        } else {
            None
        }
    } else if n && !c && h {
        if high <= 0x08 && 0x06 <= low <= 0x0f {
            Some((0xfau8, false))
        } else {
            None
        }
    } else if n && c && !h {
        if 0x07 <= high <= 0x0f && low <= 0x09 {
            Some((0xa0u8, true))
        } else {
            None
        }
    } else {
        if 0x06 <= high <= 0x0f && 0x06 <= low <= 0x0f {
            Some((0x9au8, false))
        } else {
            None
        }
    }
}

/// The row of the decimal-adjust table that a machine is in.
pub open spec fn daa_row(gb: Gameboy) -> Option<(u8, bool)> {
    let f = flags_of(gb);
    let a = acc_of(gb);
    daa_adjust(has_flag(f, FLAG_N), has_flag(f, FLAG_C), has_flag(f, FLAG_H), a / 16, a % 16)
}

/// The machine after decimal adjust: the table's constant is added to the
/// accumulator, Zero says whether the accumulator is now zero, Half-carry
/// is cleared and Carry is the table's; outside the table, a fault that
/// carries A and F.
pub open spec fn after_daa(gb: Gameboy) -> Result<Gameboy, Fault> {
    match daa_row(gb) {
        None => Err(Fault::IllegalDaaState(acc_of(gb), flags_of(gb))),
        Some((add_to_a, new_c)) => {
            let a = acc_of(gb).wrapping_add(add_to_a);
            let f = with_flag(with_flag(with_flag(flags_of(gb), FLAG_Z, a == 0), FLAG_H, false), FLAG_C, new_c);
            Ok(with_flags(with_reg(gb, RA, a), f))
        },
    }
}

/// Looks a combination up in the decimal-adjust table.
pub fn daa_lookup(n: bool, c: bool, h: bool, high: u8, low: u8) -> (row: Option<(u8, bool)>)
    ensures
        row == daa_adjust(n, c, h, high, low),
{
    match (n, c, h) {
        (false, false, false) => {
            if high <= 0x09 && low <= 0x09 {
                Some((0x00, false))
            } else if high <= 0x08 && 0x0a <= low && low <= 0x0f {
                Some((0x06, false))
            } else if 0x0a <= high && high <= 0x0f && low <= 0x09 {
                Some((0x60, true))
            } else if 0x09 <= high && high <= 0x0f && 0x0a <= low && low <= 0x0f {
                Some((0x66, true))
            } else {
                None
            }
        },
        (false, false, true) => {
            if high <= 0x09 && low <= 0x03 {
                Some((0x06, false))
            } else if 0x0a <= high && high <= 0x0f && low <= 0x03 {
                Some((0x66, true))
            } else {
                None
            }
        },
        (false, true, false) => {
            if high <= 0x02 && low <= 0x09 {
                Some((0x60, true))
            } else if high <= 0x02 && 0x0a <= low && low <= 0x0f {
                Some((0x66, true))
            } else {
                None
            }
        },
        (false, true, true) => {
            if high <= 0x03 && low <= 0x03 {
                Some((0x66, true))
            } else {
                None
            }
        },
        (true, false, false) => {
            if high <= 0x09 && low <= 0x09 {
                Some((0x00, false))
            } else {
                None
            }
        },
        (true, false, true) => {
            if high <= 0x08 && 0x06 <= low && low <= 0x0f {
                Some((0xfa, false))
            } else {
                None
            }
        },
        (true, true, false) => {
            if 0x07 <= high && high <= 0x0f && low <= 0x09 {
                Some((0xa0, true))
            } else {
                None
            }
        },
        (true, true, true) => {
            if 0x06 <= high && high <= 0x0f && 0x06 <= low && low <= 0x0f {
                Some((0x9a, false))
            } else {
                None
            }
        },
    }
}

/// Decimal adjust of the accumulator.
pub fn daa(gb: &mut Gameboy) -> (r: Result<(), Fault>)
    ensures
        same_surroundings(*old(gb), *final(gb)),
        written(*old(gb), *final(gb), r, after_daa(*old(gb))),
{
    let f = gb.regs[RF];
    let a = gb.regs[RA];
    let n = test_flag(f, FLAG_N);
    let c = test_flag(f, FLAG_C);
    let h = test_flag(f, FLAG_H);
    let a_low = a % 16;
    let a_high = a / 16;

    match daa_lookup(n, c, h, a_high, a_low) {
        None => Err(Fault::IllegalDaaState(a, f)),
        Some((add_to_a, new_c)) => {
            let adjusted = a.wrapping_add(add_to_a);
            gb.regs[RA] = adjusted;
            gb.regs[RF] = set_flag(set_flag(set_flag(f, FLAG_Z, adjusted == 0), FLAG_H, false), FLAG_C, new_c);
            Ok(())
        },
    }
}

/// The machine after complementing the accumulator: every bit of A is
/// inverted, N and H are set.
pub open spec fn after_cpl(gb: Gameboy) -> Gameboy {
    let f = with_flag(with_flag(flags_of(gb), FLAG_N, true), FLAG_H, true);
    with_flags(with_reg(gb, RA, !acc_of(gb)), f)
}

/// Complements the accumulator.
pub fn cpl(gb: &mut Gameboy)
    ensures
        same_surroundings(*old(gb), *final(gb)),
        *final(gb) == after_cpl(*old(gb)),
{
    gb.regs[RA] = !gb.regs[RA];
    gb.regs[RF] = set_flag(set_flag(gb.regs[RF], FLAG_N, true), FLAG_H, true);
}

/// The machine after an 8-bit load.
pub open spec fn after_ld(gb: Gameboy, dst: Dst8, src: Src8) -> Result<Gameboy, Fault> {
    match src.spec_read(gb) {
        Err(e) => Err(e),
        Ok(value) => dst.spec_write(gb, value),
    }
}

/// 8-bit load.
pub fn ld(gb: &mut Gameboy, dst: Dst8, src: Src8) -> (r: Result<(), Fault>)
    requires
        dst.wf(),
        src.wf(),
    ensures
        same_surroundings(*old(gb), *final(gb)),
        written(*old(gb), *final(gb), r, after_ld(*old(gb), dst, src)),
{
    let value = src.read(gb)?;
    dst.write(gb, value)
}

/// HL moved by one, wrapping at the 16-bit boundary.
pub open spec fn stepped(value: u16, mode: IncDec) -> u16 {
    match mode {
        IncDec::Inc => value.wrapping_add(1),
        IncDec::Dec => value.wrapping_sub(1),
    }
}

/// The machine after an 8-bit load that then moves HL by one.
pub open spec fn after_ld_inc_dec(gb: Gameboy, dst: Dst8, src: Src8, mode: IncDec) -> Result<Gameboy, Fault> {
    match after_ld(gb, dst, src) {
        Err(e) => Err(e),
        Ok(g) => Ok(with_pair(g, RHL, stepped(pair_of(g, RHL), mode))),
    }
}

/// 8-bit load to/from (HL), but increment or decrement HL afterwards.
pub fn ld_inc_dec(gb: &mut Gameboy, dst: Dst8, src: Src8, mode: IncDec) -> (r: Result<(), Fault>)
    requires
        dst.wf(),
        src.wf(),
    ensures
        same_surroundings(*old(gb), *final(gb)),
        written(*old(gb), *final(gb), r, after_ld_inc_dec(*old(gb), dst, src, mode)),
{
    let value = src.read(gb)?;
    dst.write(gb, value)?;

    let hl = rr_to_u16(gb, RHL);
    let new = match mode {
        IncDec::Inc => hl.wrapping_add(1),
        IncDec::Dec => hl.wrapping_sub(1),
    };
    let (high, low) = split_u16(new);
    gb.regs[RH] = high;
    gb.regs[RL] = low;
    Ok(())
}

/// The machine after a 16-bit load. A load of the stack pointer plus a
/// displacement first sets the flags: Z and N cleared, H and C those of
/// adding the displacement to the low byte of the stack pointer.
pub open spec fn after_ld_16(gb: Gameboy, dst: Dst16, src: Src16) -> Partial<Gameboy> {
    let g = match src {
        Src16::SPD8(n) => with_flags(
            gb,
            flags_byte(false, false, half_carry(low_byte(gb.sp), n as u8), carry(low_byte(gb.sp), n as u8)),
        ),
        _ => gb,
    };
    dst.spec_write(g, src.spec_read(g))
}

/// 16-bit load.
pub fn ld_16(gb: &mut Gameboy, dst: Dst16, src: Src16) -> (r: Result<(), Fault>)
    requires
        dst.wf(),
        src.wf(),
    ensures
        same_surroundings(*old(gb), *final(gb)),
        outcome(*final(gb), r, after_ld_16(*old(gb), dst, src)),
{
    if let Src16::SPD8(n) = src {
        let (_, sp_low) = split_u16(gb.sp);
        let h = compute_half_carry_flag(sp_low, n as u8) != 0;
        let c = compute_carry_flag(sp_low, n as u8) != 0;
        gb.regs[RF] = pack_flags(false, false, h, c);
    }
    let value = src.read(gb);
    dst.write(gb, value)
}

/// The machine after two bytes are pushed: the stack pointer goes down by
/// one before each byte is written, wrapping at the 16-bit boundary. A
/// fault leaves the stack pointer where the byte was to be written.
pub open spec fn after_push_bytes(gb: Gameboy, first: u8, second: u8) -> Partial<Gameboy> {
    let g1 = Gameboy { sp: gb.sp.wrapping_sub(1), ..gb };
    match g1.spec_write(g1.sp, first) {
        Err(e) => Err((e, g1)),
        Ok(g2) => {
            let g3 = Gameboy { sp: g2.sp.wrapping_sub(1), ..g2 };
            stopping_in(g3, g3.spec_write(g3.sp, second))
        },
    }
}

/// Pushes two bytes, the first at the higher address.
fn push_bytes(gb: &mut Gameboy, first: u8, second: u8) -> (r: Result<(), Fault>)
    ensures
        same_surroundings(*old(gb), *final(gb)),
        outcome(*final(gb), r, after_push_bytes(*old(gb), first, second)),
{
    gb.sp = gb.sp.wrapping_sub(1);
    let sp = gb.sp;
    gb.write(sp, first)?;
    gb.sp = gb.sp.wrapping_sub(1);
    let sp = gb.sp;
    gb.write(sp, second)
}

/// The machine after a register pair is pushed, high byte first.
pub open spec fn after_push(gb: Gameboy, r_pair: RR) -> Partial<Gameboy> {
    after_push_bytes(gb, gb.regs[r_pair.0 as int], gb.regs[r_pair.1 as int])
}

/// Push to stack memory, data from 16-bit register.
pub fn push(gb: &mut Gameboy, r_pair: RR) -> (r: Result<(), Fault>)
    requires
        is_reg_pair(r_pair),
    ensures
        same_surroundings(*old(gb), *final(gb)),
        outcome(*final(gb), r, after_push(*old(gb), r_pair)),
{
    let high = gb.regs[r_pair.0];
    let low = gb.regs[r_pair.1];
    push_bytes(gb, high, low)
}

/// The two bytes on top of the stack, the one at the lower address first,
/// and the stack pointer after both are popped.
pub open spec fn popped_bytes(gb: Gameboy) -> Result<(u8, u8, u16), Fault> {
    match gb.spec_read(gb.sp) {
        Err(e) => Err(e),
        Ok(first) => match gb.spec_read(gb.sp.wrapping_add(1)) {
            Err(e) => Err(e),
            Ok(second) => Ok((first, second, gb.sp.wrapping_add(2))),
        },
    }
}

/// Pops two bytes, the first from the lower address. A fault leaves the
/// stack pointer where it was.
fn pop_bytes(gb: &mut Gameboy) -> (r: Result<(u8, u8), Fault>)
    ensures
        same_surroundings(*old(gb), *final(gb)),
        match popped_bytes(*old(gb)) {
            Ok((first, second, sp)) => r == Ok::<(u8, u8), Fault>((first, second)) && *final(gb) == (
                Gameboy { sp: sp, ..*old(gb) }
            ),
            Err(e) => r == Err::<(u8, u8), Fault>(e) && *final(gb) == *old(gb),
        },
{
    let first = gb.read(gb.sp)?;
    let second = gb.read(gb.sp.wrapping_add(1))?;
    gb.sp = gb.sp.wrapping_add(2);
    Ok((first, second))
}

/// The byte that a register takes from the stack: the flags register keeps
/// its bottom nibble zero.
pub open spec fn popped_value(r: usize, value: u8) -> u8 {
    if r == RF {
        value & 0xf0
    } else {
        value
    }
}

/// The machine after a register pair is popped, low byte first.
pub open spec fn after_pop(gb: Gameboy, r_pair: RR) -> Result<Gameboy, Fault> {
    match popped_bytes(gb) {
        Err(e) => Err(e),
        Ok((low, high, sp)) => Ok(
            with_reg(
                with_reg(Gameboy { sp: sp, ..gb }, r_pair.1, popped_value(r_pair.1, low)),
                r_pair.0,
                popped_value(r_pair.0, high),
            ),
        ),
    }
}

/// Pop to 16-bit register, data from stack memory.
pub fn pop(gb: &mut Gameboy, r_pair: RR) -> (r: Result<(), Fault>)
    requires
        is_reg_pair(r_pair),
    ensures
        same_surroundings(*old(gb), *final(gb)),
        written(*old(gb), *final(gb), r, after_pop(*old(gb), r_pair)),
{
    let (low, high) = pop_bytes(gb)?;
    gb.regs[r_pair.1] = if r_pair.1 == RF { low & 0xf0 } else { low };
    gb.regs[r_pair.0] = if r_pair.0 == RF { high & 0xf0 } else { high };
    Ok(())
}

/// The flags after an 8-bit increment or decrement of `value`: Zero says
/// whether the result is zero, N says whether it was a decrement, H is the
/// half-carry of adding 1 or, for a decrement, 0xff; C is kept.
pub open spec fn inc_dec_flags(f: u8, value: u8, mode: IncDec) -> u8 {
    let (result, n, h) = match mode {
        IncDec::Inc => (value.wrapping_add(1), false, half_carry(value, 1)),
        IncDec::Dec => (value.wrapping_sub(1), true, half_carry(value, 0xff)),
    };
    with_flag(with_flag(with_flag(f, FLAG_Z, result == 0), FLAG_N, n), FLAG_H, h)
}

/// The byte after `value`, or before it, wrapping at the 8-bit boundary.
pub open spec fn stepped_byte(value: u8, mode: IncDec) -> u8 {
    match mode {
        IncDec::Inc => value.wrapping_add(1),
        IncDec::Dec => value.wrapping_sub(1),
    }
}

/// The machine after an 8-bit increment or decrement: the flags are set,
/// then the result is stored. A fault at the store leaves the flags set.
pub open spec fn after_inc_dec(gb: Gameboy, dst: Dst8, mode: IncDec) -> Partial<Gameboy> {
    match dst.spec_read(gb) {
        Err(e) => Err((e, gb)),
        Ok(value) => {
            let flagged = with_flags(gb, inc_dec_flags(flags_of(gb), value, mode));
            stopping_in(flagged, dst.spec_write(flagged, stepped_byte(value, mode)))
        },
    }
}

/// 8-bit increment/decrement.
pub fn inc_dec(gb: &mut Gameboy, dst: Dst8, mode: IncDec) -> (r: Result<(), Fault>)
    requires
        dst.wf(),
    ensures
        same_surroundings(*old(gb), *final(gb)),
        outcome(*final(gb), r, after_inc_dec(*old(gb), dst, mode)),
{
    let value = dst.read(gb)?;
    let (computed_value, n, h) = match mode {
        IncDec::Inc => (value.wrapping_add(1), false, compute_half_carry_flag(value, 1) != 0),
        IncDec::Dec => (value.wrapping_sub(1), true, compute_half_carry_flag(value, 0xff) != 0),
    };
    let f = gb.regs[RF];
    gb.regs[RF] = set_flag(set_flag(set_flag(f, FLAG_Z, computed_value == 0), FLAG_N, n), FLAG_H, h);
    dst.write(gb, computed_value)
}

/// The carry that goes into an addition or subtraction.
pub open spec fn carry_in(f: u8, carry_mode: CarryMode) -> u16 {
    if carry_mode == CarryMode::WithCarry && has_flag(f, FLAG_C) {
        1
    } else {
        0
    }
}

/// The accumulator and the flags after `operand` is added to or subtracted
/// from `a`. `operand` is the source value plus the carry that goes in, and
/// may be 0x100.
///
/// Zero says whether the result is zero. For an addition, H is the carry
/// out of bit 3 of the low nibbles and C the carry out of bit 7 of the full
/// sum. A subtraction sets N, and takes H and C from adding the two's
/// complement of the operand, inverted.
pub open spec fn add_sub_result(a: u8, operand: u16, mode: AddSub) -> (u8, u8) {
    let v = (operand % 0x100) as u8;
    match mode {
        AddSub::Add => {
            let sum = a.wrapping_add(v);
            (sum, flags_byte(sum == 0, false, half_carry(a, v), a + operand > 0xff))
        },
        AddSub::Sub => {
            let sum = a.wrapping_sub(v);
            (sum, flags_byte(sum == 0, true, !half_carry(a, negated(v)), !carry(a, negated(v))))
        },
    }
}

/// The machine after an 8-bit addition to, or subtraction from, the
/// accumulator.
pub open spec fn after_add_sub(gb: Gameboy, src: Src8, mode: AddSub, carry_mode: CarryMode) -> Result<
    Gameboy,
    Fault,
> {
    match src.spec_read(gb) {
        Err(e) => Err(e),
        Ok(value) => {
            let (sum, f) = add_sub_result(
                acc_of(gb),
                (value + carry_in(flags_of(gb), carry_mode)) as u16,
                mode,
            );
            Ok(with_reg(with_flags(gb, f), RA, sum))
        },
    }
}

/// Computes the accumulator and flags of an addition or subtraction.
pub fn compute_add_sub(a: u8, operand: u16, mode: AddSub) -> (r: (u8, u8))
    requires
        operand <= 0x100,
    ensures
        r == add_sub_result(a, operand, mode),
{
    let v = (operand % 0x100) as u8;
    match mode {
        AddSub::Add => {
            let sum = a.wrapping_add(v);
            let z = compute_zero_flag(sum) != 0;
            let h = compute_half_carry_flag(a, v) != 0;
            let c = a as u16 + operand > 0xff;
            (sum, pack_flags(z, false, h, c))
        },
        AddSub::Sub => {
            let sum = a.wrapping_sub(v);
            let neg = 0u8.wrapping_sub(v);
            let z = compute_zero_flag(sum) != 0;
            let h = compute_half_carry_flag(a, neg) == 0;
            let c = compute_carry_flag(a, neg) == 0;
            (sum, pack_flags(z, true, h, c))
        },
    }
}

/// 8-bit addition to, or subtraction from, the accumulator, with or without the carry.
pub fn add_sub(gb: &mut Gameboy, src: Src8, mode: AddSub, carry_mode: CarryMode) -> (r: Result<(), Fault>)
    requires
        src.wf(),
    ensures
        same_surroundings(*old(gb), *final(gb)),
        written(*old(gb), *final(gb), r, after_add_sub(*old(gb), src, mode, carry_mode)),
{
    let value = src.read(gb)?;
    let with_carry = match carry_mode {
        CarryMode::WithCarry => test_flag(gb.regs[RF], FLAG_C),
        CarryMode::NoCarry => false,
    };
    let operand: u16 = value as u16 + if with_carry { 1 } else { 0 };
    let (sum, f) = compute_add_sub(gb.regs[RA], operand, mode);
    gb.regs[RF] = f;
    gb.regs[RA] = sum;
    Ok(())
}

/// The result of a bitwise operation.
pub open spec fn bitwise_value(a: u8, value: u8, operation: BitwiseOp) -> u8 {
    match operation {
        BitwiseOp::And => a & value,
        BitwiseOp::Xor => a ^ value,
        BitwiseOp::Or => a | value,
    }
}

/// The machine after a bitwise operation on the accumulator: Zero says
/// whether the result is zero, N and C are cleared, H is kept.
pub open spec fn after_bitwise(gb: Gameboy, src: Src8, operation: BitwiseOp) -> Result<Gameboy, Fault> {
    match src.spec_read(gb) {
        Err(e) => Err(e),
        Ok(value) => {
            let computed = bitwise_value(acc_of(gb), value, operation);
            let f = flags_byte(computed == 0, false, has_flag(flags_of(gb), FLAG_H), false);
            Ok(with_reg(with_flags(gb, f), RA, computed))
        },
    }
}

/// Bitwise operation on the accumulator.
pub fn bitwise(gb: &mut Gameboy, src: Src8, operation: BitwiseOp) -> (r: Result<(), Fault>)
    requires
        src.wf(),
    ensures
        same_surroundings(*old(gb), *final(gb)),
        written(*old(gb), *final(gb), r, after_bitwise(*old(gb), src, operation)),
{
    let value = src.read(gb)?;
    let computed_value = match operation {
        BitwiseOp::And => gb.regs[RA] & value,
        BitwiseOp::Xor => gb.regs[RA] ^ value,
        BitwiseOp::Or => gb.regs[RA] | value,
    };
    let h = test_flag(gb.regs[RF], FLAG_H);
    gb.regs[RF] = pack_flags(computed_value == 0, false, h, false);
    gb.regs[RA] = computed_value;
    Ok(())
}

/// The machine after a comparison: the flags of a subtraction, the
/// accumulator kept.
pub open spec fn after_cp(gb: Gameboy, src: Src8) -> Result<Gameboy, Fault> {
    match src.spec_read(gb) {
        Err(e) => Err(e),
        Ok(value) => Ok(with_flags(gb, add_sub_result(acc_of(gb), value as u16, AddSub::Sub).1)),
    }
}

/// Compares the accumulator with a value.
pub fn cp(gb: &mut Gameboy, src: Src8) -> (r: Result<(), Fault>)
    requires
        src.wf(),
    ensures
        same_surroundings(*old(gb), *final(gb)),
        written(*old(gb), *final(gb), r, after_cp(*old(gb), src)),
{
    let value = src.read(gb)?;
    let (_, f) = compute_add_sub(gb.regs[RA], value as u16, AddSub::Sub);
    gb.regs[RF] = f;
    Ok(())
}

/// The machine after a 16-bit addition to HL: N is cleared, H and C are
/// those of adding the high bytes, Zero is kept, and HL holds the sum,
/// wrapped at the 16-bit boundary.
pub open spec fn after_add_16_hl(gb: Gameboy, src: Src16) -> Gameboy {
    let value = src.spec_read(gb);
    let sum = pair_of(gb, RHL).wrapping_add(value);
    let h = gb.regs[RH as int];
    let f = with_flag(
        with_flag(with_flag(flags_of(gb), FLAG_N, false), FLAG_H, half_carry(h, high_byte(value))),
        FLAG_C,
        carry(h, high_byte(value)),
    );
    with_pair(with_flags(gb, f), RHL, sum)
}

/// 16-bit addition to HL.
pub fn add_16_hl(gb: &mut Gameboy, src: Src16)
    requires
        src.wf(),
    ensures
        same_surroundings(*old(gb), *final(gb)),
        *final(gb) == after_add_16_hl(*old(gb), src),
{
    let value = src.read(gb);
    let sum = rr_to_u16(gb, RHL).wrapping_add(value);
    let (value_high, _) = split_u16(value);

    let h = compute_half_carry_flag(gb.regs[RH], value_high) != 0;
    let c = compute_carry_flag(gb.regs[RH], value_high) != 0;
    gb.regs[RF] = set_flag(set_flag(set_flag(gb.regs[RF], FLAG_N, false), FLAG_H, h), FLAG_C, c);

    let (high, low) = split_u16(sum);
    gb.regs[RH] = high;
    gb.regs[RL] = low;
}

/// Adds a signed displacement to the stack pointer, wrapping at the 16-bit
/// boundary. The flags are kept.
pub fn add_16_sp(gb: &mut Gameboy, n: i8)
    ensures
        same_surroundings(*old(gb), *final(gb)),
        *final(gb) == (Gameboy { sp: old(gb).sp.wrapping_add_signed(n as i16), ..*old(gb) }),
{
    let value = Src16::SPD8(n).read(gb);
    gb.sp = value;
}

/// The machine after a 16-bit increment or decrement, which wraps at the
/// 16-bit boundary.
pub open spec fn after_inc_dec_16(gb: Gameboy, dst: Dst16, mode: IncDec) -> Partial<Gameboy> {
    match dst.spec_read(gb) {
        Err(e) => Err((e, gb)),
        Ok(value) => dst.spec_write(gb, stepped(value, mode)),
    }
}

/// 16-bit increment/decrement.
pub fn inc_dec_16(gb: &mut Gameboy, dst: Dst16, mode: IncDec) -> (r: Result<(), Fault>)
    requires
        dst.wf(),
    ensures
        same_surroundings(*old(gb), *final(gb)),
        outcome(*final(gb), r, after_inc_dec_16(*old(gb), dst, mode)),
{
    let value = dst.read(gb)?;
    let new_value = match mode {
        IncDec::Inc => value.wrapping_add(1),
        IncDec::Dec => value.wrapping_sub(1),
    };
    dst.write(gb, new_value)
}

/// Jumps to an address.
pub fn jp(gb: &mut Gameboy, src: Src16)
    requires
        src.wf(),
    ensures
        same_surroundings(*old(gb), *final(gb)),
        *final(gb) == (Gameboy { pc: src.spec_read(*old(gb)), ..*old(gb) }),
{
    gb.pc = src.read(gb);
}

/// Jumps to an address if a condition holds.
pub fn jp_cond(gb: &mut Gameboy, cond: Cond, addr: u16)
    ensures
        same_surroundings(*old(gb), *final(gb)),
        *final(gb) == (Gameboy { pc: if cond.holds(*old(gb)) { addr } else { old(gb).pc }, ..*old(gb) }),
{
    if cond.check(gb) {
        gb.pc = addr;
    }
}

/// Where a relative jump at `pc` lands: past its two bytes, then the
/// displacement, wrapping at the 16-bit boundary.
pub open spec fn jr_target(pc: u16, offset: i8) -> u16 {
    pc.wrapping_add(2).wrapping_add_signed(offset as i16)
}

/// Jumps by a displacement.
pub fn jr(gb: &mut Gameboy, offset: i8)
    ensures
        same_surroundings(*old(gb), *final(gb)),
        *final(gb) == (Gameboy { pc: jr_target(old(gb).pc, offset), ..*old(gb) }),
{
    gb.pc = gb.pc.wrapping_add(2).wrapping_add_signed(offset as i16);
}

/// Jumps by a displacement if a condition holds.
pub fn jr_cond(gb: &mut Gameboy, cond: Cond, offset: i8)
    ensures
        same_surroundings(*old(gb), *final(gb)),
        *final(gb) == (
            Gameboy {
                pc: if cond.holds(*old(gb)) { jr_target(old(gb).pc, offset) } else { old(gb).pc },
                ..*old(gb)
            }
        ),
{
    if cond.check(gb) {
        gb.pc = gb.pc.wrapping_add(2).wrapping_add_signed(offset as i16);
    }
}

/// The machine after the program counter is pushed, high byte first.
pub open spec fn after_push_pc(gb: Gameboy) -> Partial<Gameboy> {
    after_push_bytes(gb, high_byte(gb.pc), low_byte(gb.pc))
}

/// Pushes the program counter.
pub fn push_pc(gb: &mut Gameboy) -> (r: Result<(), Fault>)
    ensures
        same_surroundings(*old(gb), *final(gb)),
        outcome(*final(gb), r, after_push_pc(*old(gb))),
{
    let (high, low) = split_u16(gb.pc);
    push_bytes(gb, high, low)
}

/// The machine after the program counter is popped, low byte first.
pub open spec fn after_pop_pc(gb: Gameboy) -> Result<Gameboy, Fault> {
    match popped_bytes(gb) {
        Err(e) => Err(e),
        Ok((lsb, msb, sp)) => Ok(Gameboy { sp: sp, pc: pair_value(msb, lsb), ..gb }),
    }
}

/// Pops the program counter.
pub fn pop_pc(gb: &mut Gameboy) -> (r: Result<(), Fault>)
    ensures
        same_surroundings(*old(gb), *final(gb)),
        written(*old(gb), *final(gb), r, after_pop_pc(*old(gb))),
{
    let (lsb, msb) = pop_bytes(gb)?;
    gb.pc = msb as u16 * 256 + lsb as u16;
    Ok(())
}

/// The machine after a call: the address after the call's three bytes is
/// pushed, then execution continues at `addr`.
pub open spec fn after_call(gb: Gameboy, addr: u16) -> Partial<Gameboy> {
    match after_push_pc(Gameboy { pc: gb.pc.wrapping_add(3), ..gb }) {
        Err(stopped) => Err(stopped),
        Ok(g) => Ok(Gameboy { pc: addr, ..g }),
    }
}

/// Calls the routine at an address.
pub fn call(gb: &mut Gameboy, addr: u16) -> (r: Result<(), Fault>)
    ensures
        same_surroundings(*old(gb), *final(gb)),
        outcome(*final(gb), r, after_call(*old(gb), addr)),
{
    gb.pc = gb.pc.wrapping_add(3);
    push_pc(gb)?;
    gb.pc = addr;
    Ok(())
}

/// Calls the routine at an address if a condition holds.
pub fn call_cond(gb: &mut Gameboy, cond: Cond, addr: u16) -> (r: Result<(), Fault>)
    ensures
        same_surroundings(*old(gb), *final(gb)),
        outcome(
            *final(gb),
            r,
            if cond.holds(*old(gb)) { after_call(*old(gb), addr) } else { Ok(*old(gb)) },
        ),
{
    if cond.check(gb) {
        gb.pc = gb.pc.wrapping_add(3);
        push_pc(gb)?;
        gb.pc = addr;
    }
    Ok(())
}

/// Returns from a routine.
pub fn ret(gb: &mut Gameboy) -> (r: Result<(), Fault>)
    ensures
        same_surroundings(*old(gb), *final(gb)),
        written(*old(gb), *final(gb), r, after_pop_pc(*old(gb))),
{
    pop_pc(gb)
}

/// Returns from a routine if a condition holds.
pub fn ret_cond(gb: &mut Gameboy, cond: Cond) -> (r: Result<(), Fault>)
    ensures
        same_surroundings(*old(gb), *final(gb)),
        written(
            *old(gb),
            *final(gb),
            r,
            if cond.holds(*old(gb)) { after_pop_pc(*old(gb)) } else { Ok(*old(gb)) },
        ),
{
    if cond.check(gb) {
        pop_pc(gb)?;
    }
    Ok(())
}

/// The machine after a return that also enables interrupts.
pub open spec fn after_reti(gb: Gameboy) -> Result<Gameboy, Fault> {
    match after_pop_pc(gb) {
        Err(e) => Err(e),
        Ok(g) => Ok(Gameboy { ime: true, ..g }),
    }
}

/// Returns from an interrupt routine and enables interrupts.
pub fn reti(gb: &mut Gameboy) -> (r: Result<(), Fault>)
    ensures
        same_surroundings(*old(gb), *final(gb)),
        written(*old(gb), *final(gb), r, after_reti(*old(gb))),
{
    pop_pc(gb)?;
    gb.ime = true;
    Ok(())
}

/// The machine after a restart: the program counter is pushed as it
/// stands, then execution continues at the fixed vector.
pub open spec fn after_rst(gb: Gameboy, addr: u8) -> Partial<Gameboy> {
    match after_push_pc(gb) {
        Err(stopped) => Err(stopped),
        Ok(g) => Ok(Gameboy { pc: addr as u16, ..g }),
    }
}

/// Restarts at a fixed vector.
pub fn rst(gb: &mut Gameboy, addr: u8) -> (r: Result<(), Fault>)
    ensures
        same_surroundings(*old(gb), *final(gb)),
        outcome(*final(gb), r, after_rst(*old(gb), addr)),
{
    push_pc(gb)?;
    gb.pc = addr as u16;
    Ok(())
}

/// The flags after a rotate or shift: Zero says whether the result is
/// zero, N and H are cleared, C is the bit that left the byte.
pub open spec fn shift_flags(f: u8, result: u8, carry_out: bool) -> u8 {
    with_flag(with_flag(with_flag(with_flag(f, FLAG_C, carry_out), FLAG_Z, result == 0), FLAG_N, false), FLAG_H, false)
}

/// The machine after a rotate or shift has stored its result.
pub open spec fn shifted(gb: Gameboy, dst: Dst8, result: u8, carry_out: bool) -> Result<Gameboy, Fault> {
    match dst.spec_write(gb, result) {
        Err(e) => Err(e),
        Ok(g) => Ok(with_flags(g, shift_flags(flags_of(g), result, carry_out))),
    }
}

/// Stores the result of a rotate or shift and sets the flags.
fn store_shifted(gb: &mut Gameboy, dst: Dst8, result: u8, carry_out: bool) -> (r: Result<(), Fault>)
    requires
        dst.wf(),
    ensures
        same_surroundings(*old(gb), *final(gb)),
        written(*old(gb), *final(gb), r, shifted(*old(gb), dst, result, carry_out)),
{
    dst.write(gb, result)?;
    let f = gb.regs[RF];
    gb.regs[RF] = set_flag(
        set_flag(set_flag(set_flag(f, FLAG_C, carry_out), FLAG_Z, result == 0), FLAG_N, false),
        FLAG_H,
        false,
    );
    Ok(())
}

/// Bit 0 of a byte.
pub const BIT_0: u8 = 0b0000_0001;

/// Bit 7 of a byte.
pub const BIT_7: u8 = 0b1000_0000;

/// The kinds of rotate and shift.
#[derive(Debug, Copy, Clone, PartialEq, Eq)]
pub enum Shift {
    /// Rotate left: bit 7 goes to both carry and bit 0.
    Rlc,
    /// Rotate right: bit 0 goes to both carry and bit 7.
    Rrc,
    /// Rotate left through carry: carry goes to bit 0, bit 7 to carry.
    Rl,
    /// Rotate right through carry: carry goes to bit 7, bit 0 to carry.
    Rr,
    /// Shift left: bit 7 goes to carry, bit 0 is cleared.
    Sla,
    /// Shift right, bit 7 repeated: bit 0 goes to carry.
    Sra,
    /// Shift right: bit 0 goes to carry, bit 7 is cleared.
    Srl,
}

/// The byte that a rotate or shift makes of `value`, given the carry that
/// goes in, and the bit that leaves.
pub open spec fn shift_value(kind: Shift, value: u8, carry_in: bool) -> (u8, bool) {
    match kind {
        Shift::Rlc => ((value << 1) | (value >> 7), value & BIT_7 != 0),
        Shift::Rrc => ((value >> 1) | (value << 7), value & BIT_0 != 0),
        Shift::Rl => ((value << 1) | (if carry_in { BIT_0 } else { 0 }), value & BIT_7 != 0),
        Shift::Rr => ((value >> 1) | (if carry_in { BIT_7 } else { 0 }), value & BIT_0 != 0),
        Shift::Sla => (value << 1, value & BIT_7 != 0),
        Shift::Sra => ((value >> 1) | (value & BIT_7), value & BIT_0 != 0),
        Shift::Srl => (value >> 1, value & BIT_0 != 0),
    }
}

/// Computes a rotate or shift of a byte.
pub fn compute_shift(kind: Shift, value: u8, carry_in: bool) -> (r: (u8, bool))
    ensures
        r == shift_value(kind, value, carry_in),
{
    match kind {
        Shift::Rlc => ((value << 1) | (value >> 7), value & BIT_7 != 0),
        Shift::Rrc => ((value >> 1) | (value << 7), value & BIT_0 != 0),
        Shift::Rl => ((value << 1) | (if carry_in { BIT_0 } else { 0 }), value & BIT_7 != 0),
        Shift::Rr => ((value >> 1) | (if carry_in { BIT_7 } else { 0 }), value & BIT_0 != 0),
        Shift::Sla => (value << 1, value & BIT_7 != 0),
        Shift::Sra => ((value >> 1) | (value & BIT_7), value & BIT_0 != 0),
        Shift::Srl => (value >> 1, value & BIT_0 != 0),
    }
}

/// The machine after a rotate or shift of an operand: the operand is read
/// once, the result is stored, then the flags are set.
pub open spec fn after_shift(gb: Gameboy, kind: Shift, dst: Dst8) -> Result<Gameboy, Fault> {
    match dst.spec_read(gb) {
        Err(e) => Err(e),
        Ok(value) => {
            let (result, carry_out) = shift_value(kind, value, has_flag(flags_of(gb), FLAG_C));
            shifted(gb, dst, result, carry_out)
        },
    }
}

/// Rotates or shifts an operand.
fn shift(gb: &mut Gameboy, kind: Shift, dst: Dst8) -> (r: Result<(), Fault>)
    requires
        dst.wf(),
    ensures
        same_surroundings(*old(gb), *final(gb)),
        written(*old(gb), *final(gb), r, after_shift(*old(gb), kind, dst)),
{
    let value = dst.read(gb)?;
    let c = test_flag(gb.regs[RF], FLAG_C);
    let (result, carry_out) = compute_shift(kind, value, c);
    store_shifted(gb, dst, result, carry_out)
}

/// The machine after a rotate of the accumulator: as the general rotate,
/// but Zero is cleared whatever the result.
pub open spec fn after_shift_acc(gb: Gameboy, kind: Shift) -> Gameboy {
    let (result, carry_out) = shift_value(kind, acc_of(gb), has_flag(flags_of(gb), FLAG_C));
    let g = with_reg(gb, RA, result);
    with_flags(g, with_flag(shift_flags(flags_of(g), result, carry_out), FLAG_Z, false))
}

/// Rotates the accumulator.
fn shift_acc(gb: &mut Gameboy, kind: Shift)
    ensures
        same_surroundings(*old(gb), *final(gb)),
        *final(gb) == after_shift_acc(*old(gb), kind),
{
    let r = shift(gb, kind, Dst8::R8(RA));
    assert(r is Ok);
    gb.regs[RF] = set_flag(gb.regs[RF], FLAG_Z, false);
    assert(gb.regs =~= after_shift_acc(*old(gb), kind).regs);
}

/// Rotates the accumulator left.
pub fn rlca(gb: &mut Gameboy)
    ensures
        same_surroundings(*old(gb), *final(gb)),
        *final(gb) == after_shift_acc(*old(gb), Shift::Rlc),
{
    shift_acc(gb, Shift::Rlc)
}

/// Rotates the accumulator left through the carry.
pub fn rla(gb: &mut Gameboy)
    ensures
        same_surroundings(*old(gb), *final(gb)),
        *final(gb) == after_shift_acc(*old(gb), Shift::Rl),
{
    shift_acc(gb, Shift::Rl)
}

/// Rotates the accumulator right.
pub fn rrca(gb: &mut Gameboy)
    ensures
        same_surroundings(*old(gb), *final(gb)),
        *final(gb) == after_shift_acc(*old(gb), Shift::Rrc),
{
    shift_acc(gb, Shift::Rrc)
}

/// Rotates the accumulator right through the carry.
pub fn rra(gb: &mut Gameboy)
    ensures
        same_surroundings(*old(gb), *final(gb)),
        *final(gb) == after_shift_acc(*old(gb), Shift::Rr),
{
    shift_acc(gb, Shift::Rr)
}

/// Rotates an operand left.
pub fn rlc(gb: &mut Gameboy, dst: Dst8) -> (r: Result<(), Fault>)
    requires
        dst.wf(),
    ensures
        same_surroundings(*old(gb), *final(gb)),
        written(*old(gb), *final(gb), r, after_shift(*old(gb), Shift::Rlc, dst)),
{
    shift(gb, Shift::Rlc, dst)
}

/// Rotates an operand right.
pub fn rrc(gb: &mut Gameboy, dst: Dst8) -> (r: Result<(), Fault>)
    requires
        dst.wf(),
    ensures
        same_surroundings(*old(gb), *final(gb)),
        written(*old(gb), *final(gb), r, after_shift(*old(gb), Shift::Rrc, dst)),
{
    shift(gb, Shift::Rrc, dst)
}

/// Rotates an operand left through the carry.
pub fn rl(gb: &mut Gameboy, dst: Dst8) -> (r: Result<(), Fault>)
    requires
        dst.wf(),
    ensures
        same_surroundings(*old(gb), *final(gb)),
        written(*old(gb), *final(gb), r, after_shift(*old(gb), Shift::Rl, dst)),
{
    shift(gb, Shift::Rl, dst)
}

/// Rotates an operand right through the carry.
pub fn rr(gb: &mut Gameboy, dst: Dst8) -> (r: Result<(), Fault>)
    requires
        dst.wf(),
    ensures
        same_surroundings(*old(gb), *final(gb)),
        written(*old(gb), *final(gb), r, after_shift(*old(gb), Shift::Rr, dst)),
{
    shift(gb, Shift::Rr, dst)
}

/// Shifts an operand left.
pub fn sla(gb: &mut Gameboy, dst: Dst8) -> (r: Result<(), Fault>)
    requires
        dst.wf(),
    ensures
        same_surroundings(*old(gb), *final(gb)),
        written(*old(gb), *final(gb), r, after_shift(*old(gb), Shift::Sla, dst)),
{
    shift(gb, Shift::Sla, dst)
}

/// Shifts an operand right and repeats its top bit.
pub fn sra(gb: &mut Gameboy, dst: Dst8) -> (r: Result<(), Fault>)
    requires
        dst.wf(),
    ensures
        same_surroundings(*old(gb), *final(gb)),
        written(*old(gb), *final(gb), r, after_shift(*old(gb), Shift::Sra, dst)),
{
    shift(gb, Shift::Sra, dst)
}

/// Shifts an operand right.
pub fn srl(gb: &mut Gameboy, dst: Dst8) -> (r: Result<(), Fault>)
    requires
        dst.wf(),
    ensures
        same_surroundings(*old(gb), *final(gb)),
        written(*old(gb), *final(gb), r, after_shift(*old(gb), Shift::Srl, dst)),
{
    shift(gb, Shift::Srl, dst)
}

/// A byte with its two nibbles exchanged.
pub open spec fn swapped(value: u8) -> u8 {
    (value << 4) | (value >> 4)
}

/// The machine after the nibbles of an operand are exchanged. The flags
/// are kept.
pub open spec fn after_swap(gb: Gameboy, dst: Dst8) -> Result<Gameboy, Fault> {
    match dst.spec_read(gb) {
        Err(e) => Err(e),
        Ok(value) => dst.spec_write(gb, swapped(value)),
    }
}

/// Exchanges the nibbles of an operand.
pub fn swap(gb: &mut Gameboy, dst: Dst8) -> (r: Result<(), Fault>)
    requires
        dst.wf(),
    ensures
        same_surroundings(*old(gb), *final(gb)),
        written(*old(gb), *final(gb), r, after_swap(*old(gb), dst)),
{
    let value = dst.read(gb)?;
    let top = value >> 4;
    let bottom = value << 4;
    dst.write(gb, bottom | top)
}

/// The mask of one bit of a byte.
pub open spec fn bit_mask(bt: u8) -> u8 {
    BIT_0 << bt
}

/// The machine after a bit test: Zero says whether the bit is clear, N is
/// cleared, H is set; the operand and C are kept.
pub open spec fn after_bit(gb: Gameboy, bt: u8, dst: Dst8) -> Result<Gameboy, Fault> {
    match dst.spec_read(gb) {
        Err(e) => Err(e),
        Ok(value) => Ok(
            with_flags(
                gb,
                with_flag(
                    with_flag(with_flag(flags_of(gb), FLAG_Z, value & bit_mask(bt) == 0), FLAG_N, false),
                    FLAG_H,
                    true,
                ),
            ),
        ),
    }
}

/// Tests one bit of an operand.
pub fn bit(gb: &mut Gameboy, bt: u8, dst: Dst8) -> (r: Result<(), Fault>)
    requires
        bt < 8,
        dst.wf(),
    ensures
        same_surroundings(*old(gb), *final(gb)),
        written(*old(gb), *final(gb), r, after_bit(*old(gb), bt, dst)),
{
    let value = dst.read(gb)?;
    let z = (value & (BIT_0 << bt)) == 0;
    gb.regs[RF] = set_flag(set_flag(set_flag(gb.regs[RF], FLAG_Z, z), FLAG_N, false), FLAG_H, true);
    Ok(())
}

/// The machine after one bit of an operand is cleared. The flags are kept.
pub open spec fn after_res(gb: Gameboy, bt: u8, dst: Dst8) -> Result<Gameboy, Fault> {
    match dst.spec_read(gb) {
        Err(e) => Err(e),
        Ok(value) => dst.spec_write(gb, value & !bit_mask(bt)),
    }
}

/// Clears one bit of an operand.
pub fn res(gb: &mut Gameboy, bt: u8, dst: Dst8) -> (r: Result<(), Fault>)
    requires
        bt < 8,
        dst.wf(),
    ensures
        same_surroundings(*old(gb), *final(gb)),
        written(*old(gb), *final(gb), r, after_res(*old(gb), bt, dst)),
{
    let value = dst.read(gb)?;
    dst.write(gb, value & !(BIT_0 << bt))
}

/// The machine after one bit of an operand is set. The flags are kept.
pub open spec fn after_set(gb: Gameboy, bt: u8, dst: Dst8) -> Result<Gameboy, Fault> {
    match dst.spec_read(gb) {
        Err(e) => Err(e),
        Ok(value) => dst.spec_write(gb, value | bit_mask(bt)),
    }
}

/// Sets one bit of an operand.
pub fn set(gb: &mut Gameboy, bt: u8, dst: Dst8) -> (r: Result<(), Fault>)
    requires
        bt < 8,
        dst.wf(),
    ensures
        same_surroundings(*old(gb), *final(gb)),
        written(*old(gb), *final(gb), r, after_set(*old(gb), bt, dst)),
{
    let value = dst.read(gb)?;
    dst.write(gb, value | (BIT_0 << bt))
}

} // verus!
