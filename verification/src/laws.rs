//! Laws of the machine, proved of the contracts of its routines: of the
//! flags, the stack, the memory map, the interrupts and the picture.

use vstd::prelude::*;
use crate::fault::Fault;
use crate::cartridge::Cartridge;
use crate::cpu::run::{after_interrupt, interrupt_to_serve, pending_interrupts};
use crate::gameboy::{
    Gameboy, RR, RF, FLAG_Z, FLAG_N, FLAG_H, FLAG_C, has_flag, with_flag, IO_IF, IO_IE, RH, is_reserved,
    INT_VBLANK, INT_TIMER, INT_LCDC,
};
use crate::cpu::instruction::{
    Src8, Dst8, Src16, Dst16, AddSub, CarryMode, IncDec, Instr, is_reg_pair, BitwiseOp, Cond,
    high_byte, low_byte, pair_of,
};
use crate::cpu::exec::{
    flags_byte, flags_of, acc_of, add_sub_result, after_add_sub, after_push, after_pop, after_bit,
    after_res, after_set, after_daa, daa_row, negated, half_carry, carry, inc_dec_flags,
    shift_flags, after_shift_acc, after_inc_dec_16, Shift, shift_value, after_add_16_hl,
    after_bitwise, after_cp, after_inc_dec, after_shift, bit_mask, bitwise_value, carry_in,
    popped_bytes, with_pair, after_call, after_pop_pc,
};
use crate::cpu::step::{after_exec, after_step, instr_at, instr_of_bytes};
use crate::ppu::{
    ObjAttr, LineRegs, OBJ_PRIORITY, any_set, is_line_selection, object_shade, painted, raised,
    after_enter_vblank,
};
use crate::timer::{after_pulse, pulse_overflows};

verus! {

/// Whether a mask is that of one of the four flags.
pub open spec fn is_flag(flag: u8) -> bool {
    flag == FLAG_Z || flag == FLAG_N || flag == FLAG_H || flag == FLAG_C
}

proof fn lemma_flag_bits(f: u8)
    by (bit_vector)
    ensures
        (f | 0x80) & 0x80 != 0 && (f & !0x80u8) & 0x80 == 0,
        (f | 0x40) & 0x40 != 0 && (f & !0x40u8) & 0x40 == 0,
        (f | 0x20) & 0x20 != 0 && (f & !0x20u8) & 0x20 == 0,
        (f | 0x10) & 0x10 != 0 && (f & !0x10u8) & 0x10 == 0,
        (f | 0x80) & 0x40 == f & 0x40 && (f & !0x80u8) & 0x40 == f & 0x40,
        (f | 0x80) & 0x20 == f & 0x20 && (f & !0x80u8) & 0x20 == f & 0x20,
        (f | 0x80) & 0x10 == f & 0x10 && (f & !0x80u8) & 0x10 == f & 0x10,
        (f | 0x40) & 0x80 == f & 0x80 && (f & !0x40u8) & 0x80 == f & 0x80,
        (f | 0x40) & 0x20 == f & 0x20 && (f & !0x40u8) & 0x20 == f & 0x20,
        (f | 0x40) & 0x10 == f & 0x10 && (f & !0x40u8) & 0x10 == f & 0x10,
        (f | 0x20) & 0x80 == f & 0x80 && (f & !0x20u8) & 0x80 == f & 0x80,
        (f | 0x20) & 0x40 == f & 0x40 && (f & !0x20u8) & 0x40 == f & 0x40,
        (f | 0x20) & 0x10 == f & 0x10 && (f & !0x20u8) & 0x10 == f & 0x10,
        (f | 0x10) & 0x80 == f & 0x80 && (f & !0x10u8) & 0x80 == f & 0x80,
        (f | 0x10) & 0x40 == f & 0x40 && (f & !0x10u8) & 0x40 == f & 0x40,
        (f | 0x10) & 0x20 == f & 0x20 && (f & !0x10u8) & 0x20 == f & 0x20,
        (f | 0x80) & 0x0f == f & 0x0f && (f & !0x80u8) & 0x0f == f & 0x0f,
        (f | 0x40) & 0x0f == f & 0x0f && (f & !0x40u8) & 0x0f == f & 0x0f,
        (f | 0x20) & 0x0f == f & 0x0f && (f & !0x20u8) & 0x0f == f & 0x0f,
        (f | 0x10) & 0x0f == f & 0x0f && (f & !0x10u8) & 0x0f == f & 0x0f,
        0u8 & 0x80 == 0 && 0u8 & 0x40 == 0 && 0u8 & 0x20 == 0 && 0u8 & 0x10 == 0 && 0u8 & 0x0f == 0,
{
}

/// Setting or clearing a flag gives that flag the value asked for, and
/// keeps the other three flags and the bottom nibble.
pub proof fn lemma_with_flag(f: u8, flag: u8, on: bool)
    requires
        is_flag(flag),
    ensures
        has_flag(with_flag(f, flag, on), flag) == on,
        flag != FLAG_Z ==> has_flag(with_flag(f, flag, on), FLAG_Z) == has_flag(f, FLAG_Z),
        flag != FLAG_N ==> has_flag(with_flag(f, flag, on), FLAG_N) == has_flag(f, FLAG_N),
        flag != FLAG_H ==> has_flag(with_flag(f, flag, on), FLAG_H) == has_flag(f, FLAG_H),
        flag != FLAG_C ==> has_flag(with_flag(f, flag, on), FLAG_C) == has_flag(f, FLAG_C),
        with_flag(f, flag, on) & 0x0f == f & 0x0f,
{
    lemma_flag_bits(f);
}

/// A flags byte made of four flags holds exactly those flags, over a zero
/// bottom nibble.
pub proof fn lemma_flags_byte(z: bool, n: bool, h: bool, c: bool)
    ensures
        has_flag(flags_byte(z, n, h, c), FLAG_Z) == z,
        has_flag(flags_byte(z, n, h, c), FLAG_N) == n,
        has_flag(flags_byte(z, n, h, c), FLAG_H) == h,
        has_flag(flags_byte(z, n, h, c), FLAG_C) == c,
        flags_byte(z, n, h, c) & 0x0f == 0,
{
    let f1 = with_flag(0, FLAG_Z, z);
    let f2 = with_flag(f1, FLAG_N, n);
    let f3 = with_flag(f2, FLAG_H, h);
    lemma_flag_bits(0);
    lemma_with_flag(0, FLAG_Z, z);
    lemma_with_flag(f1, FLAG_N, n);
    lemma_with_flag(f2, FLAG_H, h);
    lemma_with_flag(f3, FLAG_C, c);
}

proof fn lemma_negated_nibble(b: u8, nb: u8)
    by (bit_vector)
    requires
        b != 0 ==> nb == 256 - b,
        b == 0 ==> nb == 0,
    ensures
        b & 0x0f != 0 ==> (nb & 0x0f) == 16 - (b & 0x0f),
        b & 0x0f == 0 ==> nb & 0x0f == 0,
        b & 0x0f <= 15,
{
}

proof fn lemma_nibble_bound(a: u8)
    by (bit_vector)
    ensures
        a & 0x0f <= 15,
{
}

/// An addition to the accumulator sets Carry if and only if the sum
/// exceeds 255, Half-carry if and only if the sum of the low nibbles
/// exceeds 15, and Zero if and only if the sum is zero modulo 256; it
/// clears N and leaves the sum, modulo 256, in the accumulator.
pub proof fn law_add_flags(gb: Gameboy, src: Src8, b: u8)
    requires
        src.spec_read(gb) == Ok::<u8, Fault>(b),
    ensures
        after_add_sub(gb, src, AddSub::Add, CarryMode::NoCarry) matches Ok(g) && {
            let a = acc_of(gb);
            let f = flags_of(g);
            &&& acc_of(g) == (a + b) % 256
            &&& has_flag(f, FLAG_C) <==> a + b > 255
            &&& has_flag(f, FLAG_H) <==> (a & 0xF) + (b & 0xF) > 15
            &&& has_flag(f, FLAG_Z) <==> (a + b) % 256 == 0
            &&& !has_flag(f, FLAG_N)
        },
{
    let a = acc_of(gb);
    let (sum, f) = add_sub_result(a, b as u16, AddSub::Add);
    lemma_flags_byte(sum == 0, false, half_carry(a, b), a + b > 0xff);
}

/// A subtraction from the accumulator always sets N, and sets Zero if and
/// only if the difference is zero modulo 256. Unless the subtrahend is
/// zero, it sets Carry if and only if the accumulator is less than the
/// subtrahend; unless the subtrahend's low nibble is zero, it sets
/// Half-carry if and only if the accumulator's low nibble is less than the
/// subtrahend's.
pub proof fn law_sub_flags(gb: Gameboy, src: Src8, b: u8)
    requires
        src.spec_read(gb) == Ok::<u8, Fault>(b),
    ensures
        after_add_sub(gb, src, AddSub::Sub, CarryMode::NoCarry) matches Ok(g) && {
            let a = acc_of(gb);
            let f = flags_of(g);
            &&& acc_of(g) == (a - b) % 256
            &&& has_flag(f, FLAG_N)
            &&& has_flag(f, FLAG_Z) <==> a == b
            &&& b != 0 ==> (has_flag(f, FLAG_C) <==> a < b)
            &&& b & 0xF != 0 ==> (has_flag(f, FLAG_H) <==> (a & 0xF) < (b & 0xF))
        },
{
    let a = acc_of(gb);
    let nb = negated(b);
    let sum = a.wrapping_sub(b);
    lemma_flags_byte(sum == 0, true, !half_carry(a, nb), !carry(a, nb));
    lemma_negated_nibble(b, nb);
    lemma_nibble_bound(a);
}

/// With a zero subtrahend a subtraction sets Carry and Half-carry
/// whatever the accumulator holds.
pub proof fn law_sub_zero_flags(gb: Gameboy, src: Src8)
    requires
        src.spec_read(gb) == Ok::<u8, Fault>(0u8),
    ensures
        after_add_sub(gb, src, AddSub::Sub, CarryMode::NoCarry) matches Ok(g) && has_flag(flags_of(g), FLAG_C)
            && has_flag(flags_of(g), FLAG_H),
{
    let a = acc_of(gb);
    lemma_flags_byte(a == 0, true, !half_carry(a, 0), !carry(a, 0));
    lemma_flag_bits(0);
    lemma_nibble_bound(a);
}

/// Whether an address lies in memory that the machine itself owns and
/// that holds what was last written: video RAM, work RAM and its mirror,
/// object memory, high RAM.
pub open spec fn is_plain_ram(addr: u16) -> bool {
    (0x8000 <= addr <= 0x9fff) || (0xc000 <= addr <= 0xfe9f) || (0xff80 <= addr <= 0xfffe)
}

/// Whether a stack pointer is valid for a push: the two bytes below it lie
/// in plain RAM.
pub open spec fn is_valid_stack(sp: u16) -> bool {
    is_plain_ram(sp.wrapping_sub(1)) && is_plain_ram(sp.wrapping_sub(2))
}

/// Whether the flags register holds nothing but flags: its bottom nibble
/// is zero.
pub open spec fn flags_valid(gb: Gameboy) -> bool {
    flags_of(gb) & 0x0f == 0
}

proof fn lemma_flags_nibble(f: u8)
    by (bit_vector)
    requires
        f & 0x0f == 0,
    ensures
        f & 0xf0 == f,
{
}

/// A byte written to plain RAM is the byte read back from it, and a write
/// to plain RAM changes no other byte of plain RAM but, in work RAM, the
/// byte's mirror.
pub proof fn law_plain_ram_holds(gb: Gameboy, addr: u16, value: u8)
    requires
        is_plain_ram(addr),
    ensures
        gb.spec_write(addr, value) matches Ok(g) && g.spec_read(addr) == Ok::<u8, Fault>(value)
            && g.regs == gb.regs && g.sp == gb.sp && g.pc == gb.pc && g.io_ports == gb.io_ports
            && g.cartridge == gb.cartridge && g.ime == gb.ime
            && forall|other: u16|
            is_plain_ram(other) && other != addr && other != addr + 0x2000 && other != addr - 0x2000
                ==> #[trigger] g.spec_read(other) == gb.spec_read(other),
{
}

/// Pushing a register pair and popping it again restores the pair and
/// the stack pointer, and leaves every other register as it was, for every
/// pair and every valid stack pointer.
pub proof fn law_push_pop(gb: Gameboy, r_pair: RR)
    requires
        is_reg_pair(r_pair),
        is_valid_stack(gb.sp),
        r_pair.0 == RF || r_pair.1 == RF ==> flags_valid(gb),
    ensures
        after_push(gb, r_pair) matches Ok(pushed) && after_pop(pushed, r_pair) matches Ok(popped)
            && popped.regs == gb.regs && popped.sp == gb.sp,
{
    let high = gb.regs[r_pair.0 as int];
    let low = gb.regs[r_pair.1 as int];
    let g1 = Gameboy { sp: gb.sp.wrapping_sub(1), ..gb };
    law_plain_ram_holds(g1, g1.sp, high);
    let g2 = g1.spec_write(g1.sp, high)->Ok_0;
    let g3 = Gameboy { sp: g2.sp.wrapping_sub(1), ..g2 };
    law_plain_ram_holds(g3, g3.sp, low);
    let pushed = g3.spec_write(g3.sp, low)->Ok_0;
    assert(after_push(gb, r_pair) == Ok::<Gameboy, (Fault, Gameboy)>(pushed));
    assert(g3.spec_read(g1.sp) == Ok::<u8, Fault>(high));
    assert(pushed.spec_read(g1.sp) == Ok::<u8, Fault>(high));
    assert(pushed.sp.wrapping_add(1) == g1.sp);
    assert(pushed.sp.wrapping_add(2) == gb.sp);
    if r_pair.0 == RF || r_pair.1 == RF {
        lemma_flags_nibble(flags_of(gb));
    }
    let popped = after_pop(pushed, r_pair)->Ok_0;
    assert(popped.regs =~= gb.regs);
}

/// A call and the return from it lead to the instruction behind the
/// call, with the stack pointer where it was, for every valid stack
/// pointer.
pub proof fn law_call_returns(gb: Gameboy, addr: u16)
    requires
        is_valid_stack(gb.sp),
    ensures
        ({
            &&& after_call(gb, addr) matches Ok(called)
            &&& called.pc == addr
            &&& after_pop_pc(called) matches Ok(returned)
            &&& returned.pc == gb.pc.wrapping_add(3)
            &&& returned.sp == gb.sp
            &&& returned.regs == gb.regs
        }),
{
    let g0 = Gameboy { pc: gb.pc.wrapping_add(3), ..gb };
    let high = high_byte(g0.pc);
    let low = low_byte(g0.pc);
    let g1 = Gameboy { sp: g0.sp.wrapping_sub(1), ..g0 };
    law_plain_ram_holds(g1, g1.sp, high);
    let g2 = g1.spec_write(g1.sp, high)->Ok_0;
    let g3 = Gameboy { sp: g2.sp.wrapping_sub(1), ..g2 };
    law_plain_ram_holds(g3, g3.sp, low);
    let pushed = g3.spec_write(g3.sp, low)->Ok_0;
    let called = Gameboy { pc: addr, ..pushed };
    assert(after_call(gb, addr) == Ok::<Gameboy, (Fault, Gameboy)>(called));
    assert(called.spec_read(g1.sp) == Ok::<u8, Fault>(high));
    assert(called.sp.wrapping_add(1) == g1.sp);
    assert(called.sp.wrapping_add(2) == gb.sp);
}

/// A bit test changes nothing but the flags register: the tested operand,
/// the other registers and all of memory stay as they are.
pub proof fn law_bit_keeps_operand(gb: Gameboy, bt: u8, dst: Dst8)
    requires
        bt < 8,
        dst.wf(),
    ensures
        after_bit(gb, bt, dst) matches Ok(g) ==> {
            &&& forall|r: int| 0 <= r < 8 && r != RF ==> g.regs[r] == gb.regs[r]
            &&& forall|addr: u16| g.spec_read(addr) == gb.spec_read(addr)
            &&& dst != Dst8::R8(RF) && (dst matches Dst8::Id(rr) ==> rr.0 != RF && rr.1 != RF) ==> dst.spec_read(g)
                == dst.spec_read(gb)
        },
{
}

/// Setting or resetting a bit of an operand other than the flags register
/// itself leaves the flags as they are.
pub proof fn law_set_res_keep_flags(gb: Gameboy, bt: u8, dst: Dst8)
    requires
        bt < 8,
        dst.wf(),
        dst != Dst8::R8(RF),
    ensures
        after_set(gb, bt, dst) matches Ok(g) ==> flags_of(g) == flags_of(gb),
        after_res(gb, bt, dst) matches Ok(g) ==> flags_of(g) == flags_of(gb),
{
}

/// Decimal adjust, on a combination that its table holds, adds the
/// table's constant to the accumulator modulo 256, sets Zero if and only
/// if the accumulator is then zero, sets Carry as the table says, clears
/// Half-carry and keeps N; on any other combination it faults.
pub proof fn law_daa(gb: Gameboy)
    ensures
        match daa_row(gb) {
            Some((add_to_a, new_c)) => after_daa(gb) matches Ok(g) && {
                &&& acc_of(g) == (acc_of(gb) + add_to_a) % 256
                &&& has_flag(flags_of(g), FLAG_Z) <==> acc_of(g) == 0
                &&& has_flag(flags_of(g), FLAG_C) <==> new_c
                &&& !has_flag(flags_of(g), FLAG_H)
                &&& has_flag(flags_of(g), FLAG_N) <==> has_flag(flags_of(gb), FLAG_N)
                &&& add_to_a == 0x00 || add_to_a == 0x06 || add_to_a == 0x60 || add_to_a == 0x66
                    || add_to_a == 0xfa || add_to_a == 0xa0 || add_to_a == 0x9a
            },
            None => after_daa(gb) == Err::<Gameboy, Fault>(Fault::IllegalDaaState(acc_of(gb), flags_of(gb))),
        },
{
    match daa_row(gb) {
        Some((add_to_a, new_c)) => {
            let a = acc_of(gb).wrapping_add(add_to_a);
            let f0 = flags_of(gb);
            let f1 = with_flag(f0, FLAG_Z, a == 0);
            let f2 = with_flag(f1, FLAG_H, false);
            lemma_with_flag(f0, FLAG_Z, a == 0);
            lemma_with_flag(f1, FLAG_H, false);
            lemma_with_flag(f2, FLAG_C, new_c);
        },
        None => {},
    }
}

/// A rotate of the accumulator clears Zero whatever the result.
pub proof fn law_accumulator_rotate_clears_zero(gb: Gameboy, kind: Shift)
    ensures
        !has_flag(flags_of(after_shift_acc(gb, kind)), FLAG_Z),
{
    let (result, carry_out) = shift_value(kind, acc_of(gb), has_flag(flags_of(gb), FLAG_C));
    lemma_with_flag(shift_flags(flags_of(gb), result, carry_out), FLAG_Z, false);
}

/// A 16-bit increment or decrement of a register pair other than AF, or of
/// the stack pointer, leaves the flags as they are.
pub proof fn law_inc_dec_16_keeps_flags(gb: Gameboy, dst: Dst16, mode: IncDec)
    requires
        dst.wf(),
        dst matches Dst16::R16(rr) ==> rr.0 != RF && rr.1 != RF,
    ensures
        after_inc_dec_16(gb, dst, mode) matches Ok(g) ==> flags_of(g) == flags_of(gb),
{
}

/// Whether an instruction names the flags register only as the low half
/// of AF, on the stack.
pub open spec fn spares_flags(instr: Instr) -> bool {
    let dst8_spares = |dst: Dst8| dst != Dst8::R8(RF);
    let dst16_spares = |dst: Dst16| dst matches Dst16::R16(rr) ==> rr.0 != RF && rr.1 != RF;
    match instr {
        Instr::Ld(dst, _) | Instr::LdInc(dst, _) | Instr::LdDec(dst, _) => dst8_spares(dst),
        Instr::Ld16(dst, _) | Instr::Inc16(dst) | Instr::Dec16(dst) => dst16_spares(dst),
        Instr::Pop(rr) => rr.0 != RF,
        Instr::Inc(dst) | Instr::Dec(dst) | Instr::Rlc(dst) | Instr::Rrc(dst) | Instr::Rl(dst) | Instr::Rr(dst)
        | Instr::Sla(dst) | Instr::Sra(dst) | Instr::Srl(dst) | Instr::Swap(dst) | Instr::Res(_, dst)
        | Instr::SetBit(_, dst) => dst8_spares(dst),
        _ => true,
    }
}

/// No opcode encodes an instruction that names the flags register but as
/// the low half of AF, on the stack.
pub proof fn law_decoded_spares_flags(opcode: u8, n: u8, n2: u8)
    ensures
        instr_of_bytes(opcode, n, n2) matches Some(instr) ==> spares_flags(instr) && instr.wf(),
{
}

proof fn lemma_masked_flags(value: u8)
    by (bit_vector)
    ensures
        (value & 0xf0) & 0x0f == 0,
{
}

proof fn lemma_misc_keeps_flags_valid(gb: Gameboy, instr: Instr)
    requires
        flags_valid(gb),
        instr is Nop || instr is Stop || instr is Halt || instr is Di || instr is Ei || instr is Ccf
            || instr is Scf || instr is Daa || instr is Cpl,
    ensures
        after_exec(gb, instr) matches Ok(g) ==> flags_valid(g),
{
    reveal(after_exec);
    let f = flags_of(gb);
    match instr {
        Instr::Ccf => {
            let f1 = with_flag(f, FLAG_N, false);
            let f2 = with_flag(f1, FLAG_H, false);
            lemma_with_flag(f, FLAG_N, false);
            lemma_with_flag(f1, FLAG_H, false);
            lemma_with_flag(f2, FLAG_C, !has_flag(f, FLAG_C));
        },
        Instr::Scf => {
            let f1 = with_flag(f, FLAG_N, false);
            let f2 = with_flag(f1, FLAG_H, false);
            lemma_with_flag(f, FLAG_N, false);
            lemma_with_flag(f1, FLAG_H, false);
            lemma_with_flag(f2, FLAG_C, true);
        },
        Instr::Daa => {
            lemma_daa_nibble(gb);
        },
        Instr::Cpl => {
            let f1 = with_flag(f, FLAG_N, true);
            lemma_with_flag(f, FLAG_N, true);
            lemma_with_flag(f1, FLAG_H, true);
        },
        _ => {},
    }
}

proof fn lemma_load_keeps_flags_valid(gb: Gameboy, instr: Instr)
    requires
        flags_valid(gb),
        instr.wf(),
        spares_flags(instr),
        instr is Ld || instr is LdInc || instr is LdDec || instr is Ld16 || instr is Push || instr is Pop,
    ensures
        after_exec(gb, instr) matches Ok(g) ==> flags_valid(g),
{
    reveal(after_exec);
    match instr {
        Instr::Ld16(dst, src) => {
            match src {
                Src16::SPD8(n) => {
                    let low = low_byte(gb.sp);
                    lemma_flags_byte(false, false, half_carry(low, n as u8), carry(low, n as u8));
                },
                _ => {},
            }
        },
        Instr::Pop(rr) => {
            match popped_bytes(gb) {
                Ok((low, high, sp)) => {
                    lemma_masked_flags(low);
                },
                Err(_) => {},
            }
        },
        _ => {},
    }
}

proof fn lemma_step_keeps_flags_valid(gb: Gameboy, instr: Instr)
    requires
        flags_valid(gb),
        instr.wf(),
        spares_flags(instr),
        instr is Inc || instr is Dec,
    ensures
        after_exec(gb, instr) matches Ok(g) ==> flags_valid(g),
{
    reveal(after_exec);
    match instr {
        Instr::Inc(dst) => {
            lemma_inc_dec_nibble(gb, dst, IncDec::Inc);
        },
        Instr::Dec(dst) => {
            lemma_inc_dec_nibble(gb, dst, IncDec::Dec);
        },
        _ => {},
    }
}

proof fn lemma_bitwise_nibble(gb: Gameboy, src: Src8, operation: BitwiseOp)
    ensures
        after_bitwise(gb, src, operation) matches Ok(g) ==> flags_valid(g),
{
    match src.spec_read(gb) {
        Ok(value) => {
            let computed = bitwise_value(acc_of(gb), value, operation);
            lemma_flags_byte(computed == 0, false, has_flag(flags_of(gb), FLAG_H), false);
        },
        Err(_) => {},
    }
}

proof fn lemma_cp_nibble(gb: Gameboy, src: Src8)
    ensures
        after_cp(gb, src) matches Ok(g) ==> flags_valid(g),
{
    match src.spec_read(gb) {
        Ok(value) => {
            let a = acc_of(gb);
            let sum = a.wrapping_sub(value);
            lemma_flags_byte(sum == 0, true, !half_carry(a, negated(value)), !carry(a, negated(value)));
        },
        Err(_) => {},
    }
}

proof fn lemma_accumulator_keeps_flags_valid(gb: Gameboy, instr: Instr)
    requires
        flags_valid(gb),
        instr.wf(),
        instr is Add || instr is Adc || instr is Sub || instr is Sbc || instr is And || instr is Xor
            || instr is Or || instr is Cp,
    ensures
        after_exec(gb, instr) matches Ok(g) ==> flags_valid(g),
{
    reveal(after_exec);
    match instr {
        Instr::Add(src) => {
            lemma_add_sub_nibble(gb, src, AddSub::Add, CarryMode::NoCarry);
        },
        Instr::Adc(src) => {
            lemma_add_sub_nibble(gb, src, AddSub::Add, CarryMode::WithCarry);
        },
        Instr::Sub(src) => {
            lemma_add_sub_nibble(gb, src, AddSub::Sub, CarryMode::NoCarry);
        },
        Instr::Sbc(src) => {
            lemma_add_sub_nibble(gb, src, AddSub::Sub, CarryMode::WithCarry);
        },
        Instr::Cp(src) => {
            lemma_cp_nibble(gb, src);
        },
        Instr::And(src) => {
            lemma_bitwise_nibble(gb, src, BitwiseOp::And);
        },
        Instr::Xor(src) => {
            lemma_bitwise_nibble(gb, src, BitwiseOp::Xor);
        },
        Instr::Or(src) => {
            lemma_bitwise_nibble(gb, src, BitwiseOp::Or);
        },
        _ => {},
    }
}

proof fn lemma_add_16_hl_nibble(gb: Gameboy, src: Src16)
    requires
        flags_valid(gb),
    ensures
        flags_valid(after_add_16_hl(gb, src)),
{
    let f = flags_of(gb);
    let value = src.spec_read(gb);
    let h = gb.regs[RH as int];
    let high = high_byte(value);
    let f1 = with_flag(f, FLAG_N, false);
    let f2 = with_flag(f1, FLAG_H, half_carry(h, high));
    lemma_with_flag(f, FLAG_N, false);
    lemma_with_flag(f1, FLAG_H, half_carry(h, high));
    lemma_with_flag(f2, FLAG_C, carry(h, high));
}

proof fn lemma_wide_keeps_flags_valid(gb: Gameboy, instr: Instr)
    requires
        flags_valid(gb),
        instr.wf(),
        spares_flags(instr),
        instr is Add16HL || instr is Add16SP || instr is Inc16 || instr is Dec16,
    ensures
        after_exec(gb, instr) matches Ok(g) ==> flags_valid(g),
{
    reveal(after_exec);
    match instr {
        Instr::Add16HL(src) => {
            lemma_add_16_hl_nibble(gb, src);
        },
        Instr::Inc16(dst) => {
            law_inc_dec_16_keeps_flags(gb, dst, IncDec::Inc);
        },
        Instr::Dec16(dst) => {
            law_inc_dec_16_keeps_flags(gb, dst, IncDec::Dec);
        },
        _ => {},
    }
}

proof fn lemma_flow_keeps_flags_valid(gb: Gameboy, instr: Instr)
    requires
        flags_valid(gb),
        instr.wf(),
        instr is Jp || instr is JpCC || instr is Jr || instr is JrCC || instr is Call || instr is CallCC
            || instr is Ret || instr is RetCC || instr is Reti || instr is Rst,
    ensures
        after_exec(gb, instr) matches Ok(g) ==> flags_valid(g),
{
    reveal(after_exec);
}

proof fn lemma_shift_keeps_flags_valid(gb: Gameboy, instr: Instr)
    requires
        flags_valid(gb),
        instr.wf(),
        spares_flags(instr),
        instr is Rlca || instr is Rla || instr is Rrca || instr is Rra || instr is Rlc || instr is Rrc
            || instr is Rl || instr is Rr || instr is Sla || instr is Sra || instr is Srl || instr is Bit
            || instr is Res || instr is SetBit || instr is Swap,
    ensures
        after_exec(gb, instr) matches Ok(g) ==> flags_valid(g),
{
    reveal(after_exec);
    let f = flags_of(gb);
    match instr {
        Instr::Rlca => {
            lemma_shift_acc_nibble(gb, Shift::Rlc);
        },
        Instr::Rla => {
            lemma_shift_acc_nibble(gb, Shift::Rl);
        },
        Instr::Rrca => {
            lemma_shift_acc_nibble(gb, Shift::Rrc);
        },
        Instr::Rra => {
            lemma_shift_acc_nibble(gb, Shift::Rr);
        },
        Instr::Rlc(dst) => {
            lemma_shift_nibble(gb, Shift::Rlc, dst);
        },
        Instr::Rrc(dst) => {
            lemma_shift_nibble(gb, Shift::Rrc, dst);
        },
        Instr::Rl(dst) => {
            lemma_shift_nibble(gb, Shift::Rl, dst);
        },
        Instr::Rr(dst) => {
            lemma_shift_nibble(gb, Shift::Rr, dst);
        },
        Instr::Sla(dst) => {
            lemma_shift_nibble(gb, Shift::Sla, dst);
        },
        Instr::Sra(dst) => {
            lemma_shift_nibble(gb, Shift::Sra, dst);
        },
        Instr::Srl(dst) => {
            lemma_shift_nibble(gb, Shift::Srl, dst);
        },
        Instr::Bit(bt, dst) => {
            match dst.spec_read(gb) {
                Ok(value) => {
                    let z = value & bit_mask(bt) == 0;
                    let f1 = with_flag(f, FLAG_Z, z);
                    let f2 = with_flag(f1, FLAG_N, false);
                    lemma_with_flag(f, FLAG_Z, z);
                    lemma_with_flag(f1, FLAG_N, false);
                    lemma_with_flag(f2, FLAG_H, true);
                },
                Err(_) => {},
            }
        },
        _ => {},
    }
}

/// The bottom nibble of the flags register stays zero through every
/// instruction that names the flags register only as the low half of AF,
/// as every instruction does that an opcode encodes.
pub proof fn law_exec_keeps_flags_valid(gb: Gameboy, instr: Instr)
    requires
        flags_valid(gb),
        instr.wf(),
        spares_flags(instr),
    ensures
        after_exec(gb, instr) matches Ok(g) ==> flags_valid(g),
{
    if instr is Nop || instr is Stop || instr is Halt || instr is Di || instr is Ei || instr is Ccf
        || instr is Scf || instr is Daa || instr is Cpl {
        lemma_misc_keeps_flags_valid(gb, instr);
    } else if instr is Ld || instr is LdInc || instr is LdDec || instr is Ld16 || instr is Push
        || instr is Pop {
        lemma_load_keeps_flags_valid(gb, instr);
    } else if instr is Inc || instr is Dec {
        lemma_step_keeps_flags_valid(gb, instr);
    } else if instr is Add || instr is Adc || instr is Sub || instr is Sbc || instr is And || instr is Xor
        || instr is Or || instr is Cp {
        lemma_accumulator_keeps_flags_valid(gb, instr);
    } else if instr is Add16HL || instr is Add16SP || instr is Inc16 || instr is Dec16 {
        lemma_wide_keeps_flags_valid(gb, instr);
    } else if instr is Jp || instr is JpCC || instr is Jr || instr is JrCC || instr is Call
        || instr is CallCC || instr is Ret || instr is RetCC || instr is Reti || instr is Rst {
        lemma_flow_keeps_flags_valid(gb, instr);
    } else {
        lemma_shift_keeps_flags_valid(gb, instr);
    }
}

proof fn lemma_daa_nibble(gb: Gameboy)
    requires
        flags_valid(gb),
    ensures
        after_daa(gb) matches Ok(g) ==> flags_valid(g),
{
    match daa_row(gb) {
        Some((add_to_a, new_c)) => {
            let a = acc_of(gb).wrapping_add(add_to_a);
            let f0 = flags_of(gb);
            let f1 = with_flag(f0, FLAG_Z, a == 0);
            let f2 = with_flag(f1, FLAG_H, false);
            lemma_with_flag(f0, FLAG_Z, a == 0);
            lemma_with_flag(f1, FLAG_H, false);
            lemma_with_flag(f2, FLAG_C, new_c);
        },
        None => {},
    }
}

proof fn lemma_inc_dec_flags_nibble(f: u8, value: u8, mode: IncDec)
    ensures
        inc_dec_flags(f, value, mode) & 0x0f == f & 0x0f,
{
    let (result, n, h) = match mode {
        IncDec::Inc => (value.wrapping_add(1), false, half_carry(value, 1)),
        IncDec::Dec => (value.wrapping_sub(1), true, half_carry(value, 0xff)),
    };
    let f1 = with_flag(f, FLAG_Z, result == 0);
    let f2 = with_flag(f1, FLAG_N, n);
    lemma_with_flag(f, FLAG_Z, result == 0);
    lemma_with_flag(f1, FLAG_N, n);
    lemma_with_flag(f2, FLAG_H, h);
}

proof fn lemma_inc_dec_nibble(gb: Gameboy, dst: Dst8, mode: IncDec)
    requires
        flags_valid(gb),
        dst.wf(),
        dst != Dst8::R8(RF),
    ensures
        after_inc_dec(gb, dst, mode) matches Ok(g) ==> flags_valid(g),
{
    match dst.spec_read(gb) {
        Ok(value) => {
            lemma_inc_dec_flags_nibble(flags_of(gb), value, mode);
        },
        Err(_) => {},
    }
}

proof fn lemma_add_sub_nibble(gb: Gameboy, src: Src8, mode: AddSub, carry_mode: CarryMode)
    ensures
        after_add_sub(gb, src, mode, carry_mode) matches Ok(g) ==> flags_valid(g),
{
    match src.spec_read(gb) {
        Ok(value) => {
            let a = acc_of(gb);
            let operand = (value + carry_in(flags_of(gb), carry_mode)) as u16;
            let v = (operand % 0x100) as u8;
            match mode {
                AddSub::Add => {
                    let sum = a.wrapping_add(v);
                    lemma_flags_byte(sum == 0, false, half_carry(a, v), a + operand > 0xff);
                },
                AddSub::Sub => {
                    let sum = a.wrapping_sub(v);
                    lemma_flags_byte(sum == 0, true, !half_carry(a, negated(v)), !carry(a, negated(v)));
                },
            }
        },
        Err(_) => {},
    }
}

proof fn lemma_shift_flags_nibble(f: u8, result: u8, carry_out: bool)
    ensures
        shift_flags(f, result, carry_out) & 0x0f == f & 0x0f,
{
    let f1 = with_flag(f, FLAG_C, carry_out);
    let f2 = with_flag(f1, FLAG_Z, result == 0);
    let f3 = with_flag(f2, FLAG_N, false);
    lemma_with_flag(f, FLAG_C, carry_out);
    lemma_with_flag(f1, FLAG_Z, result == 0);
    lemma_with_flag(f2, FLAG_N, false);
    lemma_with_flag(f3, FLAG_H, false);
}

proof fn lemma_shift_nibble(gb: Gameboy, kind: Shift, dst: Dst8)
    requires
        flags_valid(gb),
        dst.wf(),
        dst != Dst8::R8(RF),
    ensures
        after_shift(gb, kind, dst) matches Ok(g) ==> flags_valid(g),
{
    match dst.spec_read(gb) {
        Ok(value) => {
            let (result, carry_out) = shift_value(kind, value, has_flag(flags_of(gb), FLAG_C));
            match dst.spec_write(gb, result) {
                Ok(g) => {
                    lemma_shift_flags_nibble(flags_of(g), result, carry_out);
                },
                Err(_) => {},
            }
        },
        Err(_) => {},
    }
}

proof fn lemma_shift_acc_nibble(gb: Gameboy, kind: Shift)
    requires
        flags_valid(gb),
    ensures
        flags_valid(after_shift_acc(gb, kind)),
{
    let (result, carry_out) = shift_value(kind, acc_of(gb), has_flag(flags_of(gb), FLAG_C));
    lemma_shift_flags_nibble(flags_of(gb), result, carry_out);
    lemma_with_flag(shift_flags(flags_of(gb), result, carry_out), FLAG_Z, false);
}

/// A register pair holds a 16-bit value high byte first: the value that is
/// stored in a pair is the value that is read from it.
pub proof fn law_pair_holds(gb: Gameboy, rr: RR, value: u16)
    requires
        is_reg_pair(rr),
        rr.0 != rr.1,
    ensures
        pair_of(with_pair(gb, rr, value), rr) == value,
        with_pair(gb, rr, value).regs[rr.0 as int] == value / 256,
        with_pair(gb, rr, value).regs[rr.1 as int] == value % 256,
{
}

/// The two reserved windows of the memory map read as 0xff whatever the
/// machine holds, and a write to them changes nothing.
pub proof fn law_reserved_windows(gb: Gameboy, addr: u16, value: u8)
    requires
        is_reserved(addr),
    ensures
        gb.spec_read(addr) == Ok::<u8, Fault>(0xff),
        gb.spec_write(addr, value) == Ok::<Gameboy, Fault>(gb),
{
}

/// Work RAM shows a second time above itself: an address of the mirror
/// reads and writes the byte 0x2000 below it.
pub proof fn law_work_ram_mirror(gb: Gameboy, addr: u16, value: u8)
    requires
        0xe000 <= addr <= 0xfdff,
    ensures
        gb.spec_read(addr) == gb.spec_read((addr - 0x2000) as u16),
        gb.spec_write(addr, value) == gb.spec_write((addr - 0x2000) as u16, value),
{
}

/// The condition of a conditional jump, call or return.
pub open spec fn condition_of(instr: Instr) -> Option<Cond> {
    match instr {
        Instr::JpCC(cond, _) | Instr::JrCC(cond, _) | Instr::CallCC(cond, _) | Instr::RetCC(cond) => Some(cond),
        _ => None,
    }
}

/// A conditional jump, call or return costs fewer cycles when it is not
/// taken, and then advances the program counter by the length of its
/// encoding; taken, it leaves the program counter to the instruction.
pub proof fn law_untaken_costs_less(taken: Gameboy, untaken: Gameboy, instr: Instr)
    requires
        condition_of(instr) matches Some(cond) && cond.holds(taken) && !cond.holds(untaken),
    ensures
        instr.cycles(untaken) < instr.cycles(taken),
        instr.length(untaken) == instr.encoded_length(),
        instr.length(untaken) > 0,
        instr.length(taken) == 0,
{
}

/// The bottom nibble of the flags register is zero at power-on.
pub proof fn law_power_on_flags_valid(gb: Gameboy, cartridge: Cartridge)
    requires
        gb.is_power_on(cartridge),
    ensures
        flags_valid(gb),
{
    lemma_flag_bits(0);
}

/// With the stack in plain RAM, serving an interrupt clears the served
/// interrupt's bit in IF and no other; the served interrupt is one that
/// was raised and enabled, and execution continues at its vector with
/// interrupts disabled. Where no interrupt is to be served the machine
/// stays as it is.
pub proof fn law_one_interrupt_served(gb: Gameboy)
    requires
        is_valid_stack(gb.sp),
    ensures
        match interrupt_to_serve(gb) {
            Some((bit, vector)) => {
                &&& gb.ime
                &&& pending_interrupts(gb) & bit != 0
                &&& after_interrupt(gb) matches Ok(g) && {
                    &&& g.io_ports.io_ports[IO_IF as int]
                        == gb.io_ports.io_ports[IO_IF as int] & !bit
                    &&& forall|port: int|
                        0 <= port < 0x4d && port != IO_IF ==> g.io_ports.io_ports[port]
                            == gb.io_ports.io_ports[port]
                    &&& g.pc == vector
                    &&& !g.ime
                }
            },
            None => after_interrupt(gb) == Ok::<Gameboy, (Fault, Gameboy)>(gb),
        },
{
    let g1 = Gameboy { sp: gb.sp.wrapping_sub(1), ..gb };
    law_plain_ram_holds(g1, g1.sp, high_byte(gb.pc));
    let g2 = g1.spec_write(g1.sp, high_byte(gb.pc))->Ok_0;
    let g3 = Gameboy { sp: g2.sp.wrapping_sub(1), ..g2 };
    law_plain_ram_holds(g3, g3.sp, low_byte(gb.pc));
}

/// The bottom nibble of the flags register is always zero: it is zero
/// after every step of a machine in which it was zero before.
pub proof fn law_step_keeps_flags_valid(gb: Gameboy)
    requires
        flags_valid(gb),
    ensures
        after_step(gb) matches Ok(g) ==> flags_valid(g),
{
    match instr_at(gb, gb.pc) {
        Ok(instr) => {
            let opcode = gb.spec_read(gb.pc)->Ok_0;
            let n = gb.spec_read((gb.pc + 1) as u16)->Ok_0;
            let n2 = gb.spec_read((gb.pc + 2) as u16)->Ok_0;
            law_decoded_spares_flags(opcode, n, n2);
            law_exec_keeps_flags_valid(gb, instr);
        },
        Err(_) => {},
    }
}

/// Of two objects of a line that lie equally far left, the one that
/// stands earlier in object memory is painted later, and so on top.
pub proof fn law_lower_index_painted_later(
    line: Seq<(u8, ObjAttr)>,
    oam: [u8; 0xa0],
    y: u8,
    tall: bool,
    lower: int,
    higher: int,
)
    requires
        is_line_selection(line, oam, y, tall),
        0 <= lower < line.len(),
        0 <= higher < line.len(),
        line[lower].1.x == line[higher].1.x,
        line[lower].0 < line[higher].0,
    ensures
        higher < lower,
{
    if lower < higher {
        assert(crate::ppu::outranks(line[higher], line[lower]));
    }
}

/// The object that is painted last decides a pixel that it covers with a
/// colour other than 0, unless its priority flag makes it yield to what is
/// below; an object that gives the pixel no shade leaves the pixel as the
/// objects before it made it.
pub proof fn law_last_object_decides(
    palette: [crate::gameboy::Rgb; 4],
    vram: [u8; 0x2000],
    regs: LineRegs,
    line: Seq<(u8, ObjAttr)>,
    x: u8,
    y: u8,
    under: crate::gameboy::Rgb,
)
    requires
        line.len() > 0,
    ensures
        object_shade(vram, regs, line.last().1, x, y) matches Some(shade) ==> (!any_set(
            line.last().1.flags,
            OBJ_PRIORITY,
        ) ==> painted(palette, vram, regs, line, x, y, under) == palette[shade as int]),
        object_shade(vram, regs, line.last().1, x, y) is None ==> painted(palette, vram, regs, line, x, y, under)
            == painted(palette, vram, regs, line.drop_last(), x, y, under),
{
}

/// Whether an operand holds what is written to it: it is a register, or
/// it names an address of plain RAM.
pub open spec fn holds_what_is_written(gb: Gameboy, dst: Dst8) -> bool {
    match dst.place(gb) {
        None => true,
        Some(addr) => is_plain_ram(addr),
    }
}

proof fn lemma_one_bit(v: u8, bt: u8, other: u8)
    by (bit_vector)
    requires
        bt < 8,
        other < 8,
    ensures
        (1u8 << bt) != 0,
        (v | (1u8 << bt)) & (1u8 << bt) == (1u8 << bt),
        (v & !(1u8 << bt)) & (1u8 << bt) == 0,
        other != bt ==> (v | (1u8 << bt)) & (1u8 << other) == v & (1u8 << other),
        other != bt ==> (v & !(1u8 << bt)) & (1u8 << other) == v & (1u8 << other),
{
}

/// An operand that holds what is written to it reads back, after one of
/// its bits is set, with that bit set, and after one of its bits is
/// cleared, with that bit clear; every other bit reads back as it was.
pub proof fn law_set_res_read_back(gb: Gameboy, bt: u8, dst: Dst8, other: u8)
    requires
        bt < 8,
        other < 8,
        other != bt,
        dst.wf(),
        holds_what_is_written(gb, dst),
    ensures
        dst.spec_read(gb) matches Ok(v) && after_set(gb, bt, dst) matches Ok(set) && after_res(gb, bt, dst) matches Ok(
            cleared,
        ) && dst.spec_read(set) matches Ok(raised) && dst.spec_read(cleared) matches Ok(lowered) && {
            &&& raised == v | bit_mask(bt)
            &&& lowered == v & !bit_mask(bt)
            &&& raised & bit_mask(bt) != 0
            &&& lowered & bit_mask(bt) == 0
            &&& raised & bit_mask(other) == v & bit_mask(other)
            &&& lowered & bit_mask(other) == v & bit_mask(other)
        },
{
    match dst.place(gb) {
        None => {
            let v = dst.spec_read(gb)->Ok_0;
            lemma_one_bit(v, bt, other);
        },
        Some(addr) => {
            let v = gb.spec_read(addr)->Ok_0;
            lemma_one_bit(v, bt, other);
            law_plain_ram_holds(gb, addr, v | bit_mask(bt));
            law_plain_ram_holds(gb, addr, v & !bit_mask(bt));
        },
    }
}

/// A conditional relative jump whose condition does not hold moves the
/// program counter past its two bytes and costs 2 cycles; one whose
/// condition holds lands behind its two bytes plus the signed
/// displacement, wrapping at the 16-bit boundary, and costs 3 cycles.
/// Either way nothing else changes.
pub proof fn law_conditional_relative_jump(gb: Gameboy, cond: Cond, offset: i8)
    requires
        instr_at(gb, gb.pc) == Ok::<Instr, Fault>(Instr::JrCC(cond, offset)),
        gb.cycles <= u64::MAX - 6,
    ensures
        !cond.holds(gb) ==> after_step(gb) == Ok::<Gameboy, (Fault, Gameboy)>(
            Gameboy { pc: gb.pc.wrapping_add(2), cycles: (gb.cycles + 2) as u64, ..gb },
        ),
        cond.holds(gb) ==> after_step(gb) == Ok::<Gameboy, (Fault, Gameboy)>(
            Gameboy {
                pc: gb.pc.wrapping_add(2).wrapping_add_signed(offset as i16),
                cycles: (gb.cycles + 3) as u64,
                ..gb
            },
        ),
{
    reveal(after_exec);
}

/// The opcode 0x20 is the relative jump on a clear Zero flag, with the
/// byte behind it as its signed displacement.
pub proof fn law_jr_nz_decodes(gb: Gameboy, n: u8)
    requires
        gb.pc <= 0xfffd,
        gb.spec_read(gb.pc) == Ok::<u8, Fault>(0x20),
        gb.spec_read((gb.pc + 1) as u16) == Ok::<u8, Fault>(n),
        gb.spec_read((gb.pc + 2) as u16) is Ok,
    ensures
        instr_at(gb, gb.pc) == Ok::<Instr, Fault>(Instr::JrCC(Cond::Nz, n as i8)),
        Cond::Nz.holds(gb) <==> !has_flag(flags_of(gb), FLAG_Z),
{
}

/// Where VBlank is among the interrupts that are raised and enabled while
/// interrupts are on, and the stack lies in plain RAM, VBlank is the one
/// that is served, whatever else is pending: the program counter is
/// pushed, high byte first, execution continues at 0x0040 with interrupts
/// off, VBlank's bit alone is cleared in IF, and the other ports, IE among
/// them, and the registers stay as they are. With VBlank and Timer
/// pending, IF is left with the Timer's bit alone.
pub proof fn law_vblank_served_first(gb: Gameboy)
    requires
        gb.ime,
        pending_interrupts(gb) & INT_VBLANK != 0,
        is_valid_stack(gb.sp),
    ensures
        interrupt_to_serve(gb) == Some((INT_VBLANK, 0x0040u16)),
        after_interrupt(gb) matches Ok(g) && {
            &&& g.pc == 0x0040
            &&& !g.ime
            &&& g.sp == gb.sp.wrapping_sub(2)
            &&& g.spec_read(gb.sp.wrapping_sub(1)) == Ok::<u8, Fault>(high_byte(gb.pc))
            &&& g.spec_read(gb.sp.wrapping_sub(2)) == Ok::<u8, Fault>(low_byte(gb.pc))
            &&& g.io_ports.io_ports[IO_IF as int] == gb.io_ports.io_ports[IO_IF as int] & !INT_VBLANK
            &&& g.io_ports.io_ports[IO_IE as int] == gb.io_ports.io_ports[IO_IE as int]
            &&& forall|port: int|
                0 <= port < 0x4d && port != IO_IF ==> g.io_ports.io_ports[port] == gb.io_ports.io_ports[port]
            &&& g.regs == gb.regs
            &&& gb.io_ports.io_ports[IO_IF as int] == INT_VBLANK | INT_TIMER ==> g.io_ports.io_ports[IO_IF as int]
                == INT_TIMER
        },
{
    let high = high_byte(gb.pc);
    let low = low_byte(gb.pc);
    let g1 = Gameboy { sp: gb.sp.wrapping_sub(1), ..gb };
    law_plain_ram_holds(g1, g1.sp, high);
    let g2 = g1.spec_write(g1.sp, high)->Ok_0;
    let g3 = Gameboy { sp: g2.sp.wrapping_sub(1), ..g2 };
    law_plain_ram_holds(g3, g3.sp, low);
    let pushed = g3.spec_write(g3.sp, low)->Ok_0;
    assert(g3.spec_read(g1.sp) == Ok::<u8, Fault>(high));
    assert(pushed.spec_read(g1.sp) == Ok::<u8, Fault>(high));
    assert((INT_VBLANK | INT_TIMER) & !INT_VBLANK == INT_TIMER) by (bit_vector);
}

proof fn lemma_raised_bits(f: u8, interrupts: u8)
    by (bit_vector)
    ensures
        (f | interrupts) & interrupts == interrupts,
        (f | interrupts) & f == f,
{
}

/// Raising interrupts sets their bits in IF and the interrupt latch,
/// keeps what was pending, and touches neither IE nor the switch that
/// turns interrupts on: whether a raised interrupt is served is decided
/// where interrupts are served.
pub proof fn law_raising_is_unconditional(gb: Gameboy, interrupts: u8)
    ensures
        raised(gb, interrupts).io_ports.io_ports[IO_IF as int] & interrupts == interrupts,
        raised(gb, interrupts).io_ports.io_ports[IO_IF as int] & gb.io_ports.io_ports[IO_IF as int]
            == gb.io_ports.io_ports[IO_IF as int],
        raised(gb, interrupts).io_ports.io_ports[IO_IE as int] == gb.io_ports.io_ports[IO_IE as int],
        raised(gb, interrupts).ime == gb.ime,
        raised(gb, interrupts).interrupt_received,
{
    lemma_raised_bits(gb.io_ports.io_ports[IO_IF as int], interrupts);
}

/// Every overflow of the timer's counter raises the Timer interrupt,
/// whether or not interrupts are on and whatever IE holds; a pulse without
/// overflow raises nothing.
pub proof fn law_timer_overflow_interrupts(gb: Gameboy)
    ensures
        pulse_overflows(gb) ==> after_pulse(gb).io_ports.io_ports[IO_IF as int] & INT_TIMER == INT_TIMER
            && after_pulse(gb).interrupt_received,
        !pulse_overflows(gb) ==> after_pulse(gb).io_ports.io_ports[IO_IF as int]
            == gb.io_ports.io_ports[IO_IF as int] && after_pulse(gb).interrupt_received == gb.interrupt_received,
        after_pulse(gb).io_ports.io_ports[IO_IE as int] == gb.io_ports.io_ports[IO_IE as int],
        after_pulse(gb).ime == gb.ime,
{
    lemma_raised_bits(gb.io_ports.io_ports[IO_IF as int], INT_TIMER);
}

/// Every entry into the vertical blank raises the VBlank interrupt,
/// whether or not interrupts are on and whatever IE holds.
pub proof fn law_vblank_entry_interrupts(gb: Gameboy)
    ensures
        after_enter_vblank(gb).io_ports.io_ports[IO_IF as int] & INT_VBLANK == INT_VBLANK,
        after_enter_vblank(gb).interrupt_received,
        after_enter_vblank(gb).io_ports.io_ports[IO_IE as int] == gb.io_ports.io_ports[IO_IE as int],
        after_enter_vblank(gb).ime == gb.ime,
{
    let f = gb.io_ports.io_ports[IO_IF as int];
    assert((f | INT_VBLANK) & INT_VBLANK == INT_VBLANK && (f | (INT_VBLANK | INT_LCDC)) & INT_VBLANK == INT_VBLANK)
        by (bit_vector);
}

/// An operand that names an address of the bus reads and writes the bus
/// there and nowhere else; one that names none never faults, and a write
/// to it leaves the bus as it is.
pub proof fn law_operands_act_at_their_place(gb: Gameboy, src: Src8, dst: Dst8, value: u8, addr: u16)
    requires
        src.wf(),
        dst.wf(),
    ensures
        match src.place(gb) {
            Some(place) => src.spec_read(gb) == gb.spec_read(place),
            None => src.spec_read(gb) is Ok,
        },
        match dst.place(gb) {
            Some(place) => dst.spec_read(gb) == gb.spec_read(place) && dst.spec_write(gb, value) == gb.spec_write(
                place,
                value,
            ),
            None => {
                &&& dst.spec_read(gb) is Ok
                &&& dst.spec_write(gb, value) matches Ok(g) && g.spec_read(addr) == gb.spec_read(addr)
            },
        },
{
}

/// An operand that names a reserved address reads as 0xff, and a write to
/// it changes nothing.
pub proof fn law_reserved_operands(gb: Gameboy, src: Src8, dst: Dst8, value: u8)
    requires
        src.wf(),
        dst.wf(),
    ensures
        match src.place(gb) {
            Some(place) => is_reserved(place) ==> src.spec_read(gb) == Ok::<u8, Fault>(0xff),
            None => true,
        },
        match dst.place(gb) {
            Some(place) => is_reserved(place) ==> dst.spec_read(gb) == Ok::<u8, Fault>(0xff) && dst.spec_write(
                gb,
                value,
            ) == Ok::<Gameboy, Fault>(gb),
            None => true,
        },
{
}

} // verus!
