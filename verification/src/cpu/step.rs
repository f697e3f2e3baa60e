//! Decoding the instruction at an address, and executing one instruction.

use vstd::prelude::*;
use crate::fault::{Fault, Partial, outcome, stopping_in};
use crate::gameboy::{
    Gameboy, same_surroundings, RA, RB, RC, RD, RE, RH, RL, RAF, RBC, RDE, RHL, pair_value,
};
use crate::cpu::instruction::{
    CarryMode, Src8, Dst8, Src16, Dst16, BitwiseOp, IncDec, AddSub, Cond, Instr,
};
use crate::cpu::exec::{
    stop, halt, di, ei, ccf, scf, daa, cpl, ld, ld_inc_dec, ld_16, push, pop, inc_dec, add_sub,
    bitwise, cp, add_16_hl, add_16_sp, inc_dec_16, jp, jp_cond, jr, jr_cond, call, call_cond, ret,
    ret_cond, reti, rst, rlca, rla, rrca, rra, rlc, rrc, rl, rr, sla, sra, srl, swap, bit, res,
    Shift, with_flags, flags_of, ccf_flags, scf_flags, after_daa, after_cpl, after_ld,
    after_ld_inc_dec, after_ld_16, after_push, after_pop, after_inc_dec, after_add_sub,
    after_bitwise, after_cp, after_add_16_hl, after_inc_dec_16, jr_target, after_call, after_pop_pc,
    after_reti, after_rst, after_shift_acc, after_shift, after_swap, after_bit, after_res,
    after_set,
};

verus! {

/// The operand that a 3-bit register code names when it is read:
/// B, C, D, E, H, L, the byte that HL points at, A.
pub open spec fn src_of_code(encoding: u8) -> Src8 {
    if encoding == 0 {
        Src8::R8(RB)
    } else if encoding == 1 {
        Src8::R8(RC)
    } else if encoding == 2 {
        Src8::R8(RD)
    } else if encoding == 3 {
        Src8::R8(RE)
    } else if encoding == 4 {
        Src8::R8(RH)
    } else if encoding == 5 {
        Src8::R8(RL)
    } else if encoding == 6 {
        Src8::Id(RHL)
    } else {
        Src8::R8(RA)
    }
}

/// The operand that a 3-bit register code names when it is written:
/// B, C, D, E, H, L, the byte that HL points at, A.
pub open spec fn dst_of_code(encoding: u8) -> Dst8 {
    if encoding == 0 {
        Dst8::R8(RB)
    } else if encoding == 1 {
        Dst8::R8(RC)
    } else if encoding == 2 {
        Dst8::R8(RD)
    } else if encoding == 3 {
        Dst8::R8(RE)
    } else if encoding == 4 {
        Dst8::R8(RH)
    } else if encoding == 5 {
        Dst8::R8(RL)
    } else if encoding == 6 {
        Dst8::Id(RHL)
    } else {
        Dst8::R8(RA)
    }
}

/// Converts an opcode register encoding to the corresponding Dst8 value.
pub fn reg_encoding_to_dst(encoding: u8) -> (dst: Dst8)
    requires
        encoding < 8,
    ensures
        dst == dst_of_code(encoding),
        dst.wf(),
        dst.has_names(),
{
    match encoding {
        0 => Dst8::R8(RB),
        1 => Dst8::R8(RC),
        2 => Dst8::R8(RD),
        3 => Dst8::R8(RE),
        4 => Dst8::R8(RH),
        5 => Dst8::R8(RL),
        6 => Dst8::Id(RHL),
        _ => Dst8::R8(RA),
    }
}

/// Converts an opcode register encoding to the corresponding Src8 value.
pub fn reg_encoding_to_src(encoding: u8) -> (src: Src8)
    requires
        encoding < 8,
    ensures
        src == src_of_code(encoding),
        src.wf(),
        src.has_names(),
{
    match encoding {
        0 => Src8::R8(RB),
        1 => Src8::R8(RC),
        2 => Src8::R8(RD),
        3 => Src8::R8(RE),
        4 => Src8::R8(RH),
        5 => Src8::R8(RL),
        6 => Src8::Id(RHL),
        _ => Src8::R8(RA),
    }
}

/// The arithmetic instruction that a 3-bit operation code names.
pub open spec fn alu_of_code(operation: u8, src: Src8) -> Instr {
    if operation == 0 {
        Instr::Add(src)
    } else if operation == 1 {
        Instr::Adc(src)
    } else if operation == 2 {
        Instr::Sub(src)
    } else if operation == 3 {
        Instr::Sbc(src)
    } else if operation == 4 {
        Instr::And(src)
    } else if operation == 5 {
        Instr::Xor(src)
    } else if operation == 6 {
        Instr::Or(src)
    } else {
        Instr::Cp(src)
    }
}

/// The instruction that the second byte of a prefixed opcode names: its
/// top two bits choose between rotate or shift, bit test, bit reset and
/// bit set; its middle three bits choose the rotate or the bit; its low
/// three bits choose the operand.
pub open spec fn prefixed_instr(n: u8) -> Instr {
    let dst = dst_of_code(n % 8);
    let y = (n / 8) % 8;
    if n / 64 == 0 {
        if y == 0 {
            Instr::Rlc(dst)
        } else if y == 1 {
            Instr::Rrc(dst)
        } else if y == 2 {
            Instr::Rl(dst)
        } else if y == 3 {
            Instr::Rr(dst)
        } else if y == 4 {
            Instr::Sla(dst)
        } else if y == 5 {
            Instr::Sra(dst)
        } else if y == 6 {
            Instr::Swap(dst)
        } else {
            Instr::Srl(dst)
        }
    } else if n / 64 == 1 {
        Instr::Bit(y, dst)
    } else if n / 64 == 2 {
        Instr::Res(y, dst)
    } else {
        Instr::SetBit(y, dst)
    }
}

/// The instruction in the first quarter of the opcode table.
pub open spec fn low_instr(opcode: u8, n: u8, nn: u16) -> Instr {
    match opcode {
        0x00 => Instr::Nop,
        0x01 => Instr::Ld16(Dst16::R16(RBC), Src16::D16(nn)),
        0x02 => Instr::Ld(Dst8::Id(RBC), Src8::R8(RA)),
        0x03 => Instr::Inc16(Dst16::R16(RBC)),
        0x04 => Instr::Inc(Dst8::R8(RB)),
        0x05 => Instr::Dec(Dst8::R8(RB)),
        0x06 => Instr::Ld(Dst8::R8(RB), Src8::D8(n)),
        0x07 => Instr::Rlca,
        0x08 => Instr::Ld16(Dst16::IdNN(nn), Src16::RSP),
        0x09 => Instr::Add16HL(Src16::R16(RBC)),
        0x0a => Instr::Ld(Dst8::R8(RA), Src8::Id(RBC)),
        0x0b => Instr::Dec16(Dst16::R16(RBC)),
        0x0c => Instr::Inc(Dst8::R8(RC)),
        0x0d => Instr::Dec(Dst8::R8(RC)),
        0x0e => Instr::Ld(Dst8::R8(RC), Src8::D8(n)),
        0x0f => Instr::Rrca,
        0x10 => Instr::Stop,
        0x11 => Instr::Ld16(Dst16::R16(RDE), Src16::D16(nn)),
        0x12 => Instr::Ld(Dst8::Id(RDE), Src8::R8(RA)),
        0x13 => Instr::Inc16(Dst16::R16(RDE)),
        0x14 => Instr::Inc(Dst8::R8(RD)),
        0x15 => Instr::Dec(Dst8::R8(RD)),
        0x16 => Instr::Ld(Dst8::R8(RD), Src8::D8(n)),
        0x17 => Instr::Rla,
        0x18 => Instr::Jr(n as i8),
        0x19 => Instr::Add16HL(Src16::R16(RDE)),
        0x1a => Instr::Ld(Dst8::R8(RA), Src8::Id(RDE)),
        0x1b => Instr::Dec16(Dst16::R16(RDE)),
        0x1c => Instr::Inc(Dst8::R8(RE)),
        0x1d => Instr::Dec(Dst8::R8(RE)),
        0x1e => Instr::Ld(Dst8::R8(RE), Src8::D8(n)),
        0x1f => Instr::Rra,
        0x20 => Instr::JrCC(Cond::Nz, n as i8),
        0x21 => Instr::Ld16(Dst16::R16(RHL), Src16::D16(nn)),
        0x22 => Instr::LdInc(Dst8::Id(RHL), Src8::R8(RA)),
        0x23 => Instr::Inc16(Dst16::R16(RHL)),
        0x24 => Instr::Inc(Dst8::R8(RH)),
        0x25 => Instr::Dec(Dst8::R8(RH)),
        0x26 => Instr::Ld(Dst8::R8(RH), Src8::D8(n)),
        0x27 => Instr::Daa,
        0x28 => Instr::JrCC(Cond::Z, n as i8),
        0x29 => Instr::Add16HL(Src16::R16(RHL)),
        0x2a => Instr::LdInc(Dst8::R8(RA), Src8::Id(RHL)),
        0x2b => Instr::Inc16(Dst16::R16(RHL)),
        0x2c => Instr::Inc(Dst8::R8(RL)),
        0x2d => Instr::Dec(Dst8::R8(RL)),
        0x2e => Instr::Ld(Dst8::R8(RL), Src8::D8(n)),
        0x2f => Instr::Cpl,
        0x30 => Instr::JrCC(Cond::Nc, n as i8),
        0x31 => Instr::Ld16(Dst16::RSP, Src16::D16(nn)),
        0x32 => Instr::LdDec(Dst8::Id(RHL), Src8::R8(RA)),
        0x33 => Instr::Inc16(Dst16::RSP),
        0x34 => Instr::Inc(Dst8::Id(RHL)),
        0x35 => Instr::Dec(Dst8::Id(RHL)),
        0x36 => Instr::Ld(Dst8::Id(RHL), Src8::D8(n)),
        0x37 => Instr::Scf,
        0x38 => Instr::JrCC(Cond::C, n as i8),
        0x39 => Instr::Add16HL(Src16::RSP),
        0x3a => Instr::LdDec(Dst8::R8(RA), Src8::Id(RHL)),
        0x3b => Instr::Dec16(Dst16::RSP),
        0x3c => Instr::Inc(Dst8::R8(RA)),
        0x3d => Instr::Dec(Dst8::R8(RA)),
        0x3e => Instr::Ld(Dst8::R8(RA), Src8::D8(n)),
        _ => Instr::Ccf,
    }
}

/// The instruction in the last quarter of the opcode table; `None` for the
/// eleven opcodes that name no instruction.
pub open spec fn high_instr(opcode: u8, n: u8, nn: u16) -> Option<Instr> {
    match opcode {
        0xc0 => Some(Instr::RetCC(Cond::Nz)),
        0xc1 => Some(Instr::Pop(RBC)),
        0xc2 => Some(Instr::JpCC(Cond::Nz, nn)),
        0xc3 => Some(Instr::Jp(Src16::D16(nn))),
        0xc4 => Some(Instr::CallCC(Cond::Nz, nn)),
        0xc5 => Some(Instr::Push(RBC)),
        0xc6 => Some(Instr::Add(Src8::D8(n))),
        0xc7 => Some(Instr::Rst(0x00)),
        0xc8 => Some(Instr::RetCC(Cond::Z)),
        0xc9 => Some(Instr::Ret),
        0xca => Some(Instr::JpCC(Cond::Z, nn)),
        0xcb => Some(prefixed_instr(n)),
        0xcc => Some(Instr::CallCC(Cond::Z, nn)),
        0xcd => Some(Instr::Call(nn)),
        0xce => Some(Instr::Adc(Src8::D8(n))),
        0xcf => Some(Instr::Rst(0x08)),
        0xd0 => Some(Instr::RetCC(Cond::Nc)),
        0xd1 => Some(Instr::Pop(RDE)),
        0xd2 => Some(Instr::JpCC(Cond::Nc, nn)),
        0xd4 => Some(Instr::CallCC(Cond::Nc, nn)),
        0xd5 => Some(Instr::Push(RDE)),
        0xd6 => Some(Instr::Sub(Src8::D8(n))),
        0xd7 => Some(Instr::Rst(0x10)),
        0xd8 => Some(Instr::RetCC(Cond::C)),
        0xd9 => Some(Instr::Reti),
        0xda => Some(Instr::JpCC(Cond::C, nn)),
        0xdc => Some(Instr::CallCC(Cond::C, nn)),
        0xde => Some(Instr::Sbc(Src8::D8(n))),
        0xdf => Some(Instr::Rst(0x18)),
        0xe0 => Some(Instr::Ld(Dst8::IdFF(n), Src8::R8(RA))),
        0xe1 => Some(Instr::Pop(RHL)),
        0xe2 => Some(Instr::Ld(Dst8::IdFFRC, Src8::R8(RA))),
        0xe5 => Some(Instr::Push(RHL)),
        0xe6 => Some(Instr::And(Src8::D8(n))),
        0xe7 => Some(Instr::Rst(0x20)),
        0xe8 => Some(Instr::Add16SP(n as i8)),
        0xe9 => Some(Instr::Jp(Src16::R16(RHL))),
        0xea => Some(Instr::Ld(Dst8::IdNN(nn), Src8::R8(RA))),
        0xee => Some(Instr::Xor(Src8::D8(n))),
        0xef => Some(Instr::Rst(0x28)),
        0xf0 => Some(Instr::Ld(Dst8::R8(RA), Src8::IdFF(n))),
        0xf1 => Some(Instr::Pop(RAF)),
        0xf2 => Some(Instr::Ld(Dst8::R8(RA), Src8::IdFFRC)),
        0xf3 => Some(Instr::Di),
        0xf5 => Some(Instr::Push(RAF)),
        0xf6 => Some(Instr::Or(Src8::D8(n))),
        0xf7 => Some(Instr::Rst(0x30)),
        0xf8 => Some(Instr::Ld16(Dst16::R16(RHL), Src16::SPD8(n as i8))),
        0xf9 => Some(Instr::Ld16(Dst16::RSP, Src16::R16(RHL))),
        0xfa => Some(Instr::Ld(Dst8::R8(RA), Src8::IdNN(nn))),
        0xfb => Some(Instr::Ei),
        0xfe => Some(Instr::Cp(Src8::D8(n))),
        0xff => Some(Instr::Rst(0x38)),
        _ => None,
    }
}

/// Whether an opcode is one of the eleven that name no instruction.
pub open spec fn is_undefined_opcode(opcode: u8) -> bool {
    opcode == 0xd3 || opcode == 0xdb || opcode == 0xdd || opcode == 0xe3 || opcode == 0xe4 || opcode == 0xeb
        || opcode == 0xec || opcode == 0xed || opcode == 0xf4 || opcode == 0xfc || opcode == 0xfd
}

/// The instruction that an opcode and the two bytes after it encode. `n`
/// is the first byte after the opcode and `n2` the second; together they
/// make a 16-bit operand, low byte first.
///
/// In the second quarter of the table the opcode's low three bits name the
/// source and the next three the destination of a load, but for `0x76`,
/// which halts. In the third quarter the low three bits name the source
/// and the next three the arithmetic operation.
pub open spec fn instr_of_bytes(opcode: u8, n: u8, n2: u8) -> Option<Instr> {
    let nn = pair_value(n2, n);
    if opcode < 0x40 {
        Some(low_instr(opcode, n, nn))
    } else if opcode == 0x76 {
        Some(Instr::Halt)
    } else if opcode < 0x80 {
        Some(Instr::Ld(dst_of_code((opcode / 8) % 8), src_of_code(opcode % 8)))
    } else if opcode < 0xc0 {
        Some(alu_of_code((opcode / 8) % 8, src_of_code(opcode % 8)))
    } else {
        high_instr(opcode, n, nn)
    }
}

/// Decodes the second byte of a prefixed opcode.
pub fn decode_prefixed(n: u8) -> (instr: Instr)
    ensures
        instr == prefixed_instr(n),
        instr.wf(),
        instr.has_names(),
{
    // For 0xCB instructions, n encodes a register in the bottom three bits
    let cb_reg = reg_encoding_to_dst(n % 8);
    match n {
        0x00..=0x07 => Instr::Rlc(cb_reg),
        0x08..=0x0f => Instr::Rrc(cb_reg),
        0x10..=0x17 => Instr::Rl(cb_reg),
        0x18..=0x1f => Instr::Rr(cb_reg),
        0x20..=0x27 => Instr::Sla(cb_reg),
        0x28..=0x2f => Instr::Sra(cb_reg),
        0x30..=0x37 => Instr::Swap(cb_reg),
        0x38..=0x3f => Instr::Srl(cb_reg),
        0x40..=0x47 => Instr::Bit(0, cb_reg),
        0x48..=0x4f => Instr::Bit(1, cb_reg),
        0x50..=0x57 => Instr::Bit(2, cb_reg),
        0x58..=0x5f => Instr::Bit(3, cb_reg),
        0x60..=0x67 => Instr::Bit(4, cb_reg),
        0x68..=0x6f => Instr::Bit(5, cb_reg),
        0x70..=0x77 => Instr::Bit(6, cb_reg),
        0x78..=0x7f => Instr::Bit(7, cb_reg),
        0x80..=0x87 => Instr::Res(0, cb_reg),
        0x88..=0x8f => Instr::Res(1, cb_reg),
        0x90..=0x97 => Instr::Res(2, cb_reg),
        0x98..=0x9f => Instr::Res(3, cb_reg),
        0xa0..=0xa7 => Instr::Res(4, cb_reg),
        0xa8..=0xaf => Instr::Res(5, cb_reg),
        0xb0..=0xb7 => Instr::Res(6, cb_reg),
        0xb8..=0xbf => Instr::Res(7, cb_reg),
        0xc0..=0xc7 => Instr::SetBit(0, cb_reg),
        0xc8..=0xcf => Instr::SetBit(1, cb_reg),
        0xd0..=0xd7 => Instr::SetBit(2, cb_reg),
        0xd8..=0xdf => Instr::SetBit(3, cb_reg),
        0xe0..=0xe7 => Instr::SetBit(4, cb_reg),
        0xe8..=0xef => Instr::SetBit(5, cb_reg),
        0xf0..=0xf7 => Instr::SetBit(6, cb_reg),
        0xf8..=0xff => Instr::SetBit(7, cb_reg),
    }
}

/// Decodes an opcode and the two bytes after it.
pub fn decode_bytes(opcode: u8, n: u8, n2: u8) -> (r: Option<Instr>)
    ensures
        r == instr_of_bytes(opcode, n, n2),
        r is None <==> is_undefined_opcode(opcode),
        r matches Some(instr) ==> instr.wf() && instr.has_names(),
{
    // The bottom three bits of the opcode are used to indicate src reg for certain loads
    let src_reg = reg_encoding_to_src(opcode % 8);
    // Convert from little-endian, n is lsb and n2 is msb
    let nn = n2 as u16 * 256 + n as u16;
    let instr = match opcode {
        0x00 => Instr::Nop,
        0x01 => Instr::Ld16(Dst16::R16(RBC), Src16::D16(nn)),
        0x02 => Instr::Ld(Dst8::Id(RBC), Src8::R8(RA)),
        0x03 => Instr::Inc16(Dst16::R16(RBC)),
        0x04 => Instr::Inc(Dst8::R8(RB)),
        0x05 => Instr::Dec(Dst8::R8(RB)),
        0x06 => Instr::Ld(Dst8::R8(RB), Src8::D8(n)),
        0x07 => Instr::Rlca,
        0x08 => Instr::Ld16(Dst16::IdNN(nn), Src16::RSP),
        0x09 => Instr::Add16HL(Src16::R16(RBC)),
        0x0a => Instr::Ld(Dst8::R8(RA), Src8::Id(RBC)),
        0x0b => Instr::Dec16(Dst16::R16(RBC)),
        0x0c => Instr::Inc(Dst8::R8(RC)),
        0x0d => Instr::Dec(Dst8::R8(RC)),
        0x0e => Instr::Ld(Dst8::R8(RC), Src8::D8(n)),
        0x0f => Instr::Rrca,

        0x10 => Instr::Stop,
        0x11 => Instr::Ld16(Dst16::R16(RDE), Src16::D16(nn)),
        0x12 => Instr::Ld(Dst8::Id(RDE), Src8::R8(RA)),
        0x13 => Instr::Inc16(Dst16::R16(RDE)),
        0x14 => Instr::Inc(Dst8::R8(RD)),
        0x15 => Instr::Dec(Dst8::R8(RD)),
        0x16 => Instr::Ld(Dst8::R8(RD), Src8::D8(n)),
        0x17 => Instr::Rla,
        0x18 => Instr::Jr(n as i8),
        0x19 => Instr::Add16HL(Src16::R16(RDE)),
        0x1a => Instr::Ld(Dst8::R8(RA), Src8::Id(RDE)),
        0x1b => Instr::Dec16(Dst16::R16(RDE)),
        0x1c => Instr::Inc(Dst8::R8(RE)),
        0x1d => Instr::Dec(Dst8::R8(RE)),
        0x1e => Instr::Ld(Dst8::R8(RE), Src8::D8(n)),
        0x1f => Instr::Rra,

        0x20 => Instr::JrCC(Cond::Nz, n as i8),
        0x21 => Instr::Ld16(Dst16::R16(RHL), Src16::D16(nn)),
        0x22 => Instr::LdInc(Dst8::Id(RHL), Src8::R8(RA)),
        0x23 => Instr::Inc16(Dst16::R16(RHL)),
        0x24 => Instr::Inc(Dst8::R8(RH)),
        0x25 => Instr::Dec(Dst8::R8(RH)),
        0x26 => Instr::Ld(Dst8::R8(RH), Src8::D8(n)),
        0x27 => Instr::Daa,
        0x28 => Instr::JrCC(Cond::Z, n as i8),
        0x29 => Instr::Add16HL(Src16::R16(RHL)),
        0x2a => Instr::LdInc(Dst8::R8(RA), Src8::Id(RHL)),
        0x2b => Instr::Inc16(Dst16::R16(RHL)),
        0x2c => Instr::Inc(Dst8::R8(RL)),
        0x2d => Instr::Dec(Dst8::R8(RL)),
        0x2e => Instr::Ld(Dst8::R8(RL), Src8::D8(n)),
        0x2f => Instr::Cpl,

        0x30 => Instr::JrCC(Cond::Nc, n as i8),
        0x31 => Instr::Ld16(Dst16::RSP, Src16::D16(nn)),
        0x32 => Instr::LdDec(Dst8::Id(RHL), Src8::R8(RA)),
        0x33 => Instr::Inc16(Dst16::RSP),
        0x34 => Instr::Inc(Dst8::Id(RHL)),
        0x35 => Instr::Dec(Dst8::Id(RHL)),
        0x36 => Instr::Ld(Dst8::Id(RHL), Src8::D8(n)),
        0x37 => Instr::Scf,
        0x38 => Instr::JrCC(Cond::C, n as i8),
        0x39 => Instr::Add16HL(Src16::RSP),
        0x3a => Instr::LdDec(Dst8::R8(RA), Src8::Id(RHL)),
        0x3b => Instr::Dec16(Dst16::RSP),
        0x3c => Instr::Inc(Dst8::R8(RA)),
        0x3d => Instr::Dec(Dst8::R8(RA)),
        0x3e => Instr::Ld(Dst8::R8(RA), Src8::D8(n)),
        0x3f => Instr::Ccf,

        0x40..=0x47 => Instr::Ld(Dst8::R8(RB), src_reg),
        0x48..=0x4f => Instr::Ld(Dst8::R8(RC), src_reg),
        0x50..=0x57 => Instr::Ld(Dst8::R8(RD), src_reg),
        0x58..=0x5f => Instr::Ld(Dst8::R8(RE), src_reg),
        0x60..=0x67 => Instr::Ld(Dst8::R8(RH), src_reg),
        0x68..=0x6f => Instr::Ld(Dst8::R8(RL), src_reg),
        0x70..=0x75 => Instr::Ld(Dst8::Id(RHL), src_reg),
        0x76 => Instr::Halt,
        0x77 => Instr::Ld(Dst8::Id(RHL), Src8::R8(RA)),
        0x78..=0x7f => Instr::Ld(Dst8::R8(RA), src_reg),

        0x80..=0x87 => Instr::Add(src_reg),
        0x88..=0x8f => Instr::Adc(src_reg),
        0x90..=0x97 => Instr::Sub(src_reg),
        0x98..=0x9f => Instr::Sbc(src_reg),
        0xa0..=0xa7 => Instr::And(src_reg),
        0xa8..=0xaf => Instr::Xor(src_reg),
        0xb0..=0xb7 => Instr::Or(src_reg),
        0xb8..=0xbf => Instr::Cp(src_reg),

        0xc0 => Instr::RetCC(Cond::Nz),
        0xc1 => Instr::Pop(RBC),
        0xc2 => Instr::JpCC(Cond::Nz, nn),
        0xc3 => Instr::Jp(Src16::D16(nn)),
        0xc4 => Instr::CallCC(Cond::Nz, nn),
        0xc5 => Instr::Push(RBC),
        0xc6 => Instr::Add(Src8::D8(n)),
        0xc7 => Instr::Rst(0x00),
        0xc8 => Instr::RetCC(Cond::Z),
        0xc9 => Instr::Ret,
        0xca => Instr::JpCC(Cond::Z, nn),
        0xcb => decode_prefixed(n),
        0xcc => Instr::CallCC(Cond::Z, nn),
        0xcd => Instr::Call(nn),
        0xce => Instr::Adc(Src8::D8(n)),
        0xcf => Instr::Rst(0x08),

        0xd0 => Instr::RetCC(Cond::Nc),
        0xd1 => Instr::Pop(RDE),
        0xd2 => Instr::JpCC(Cond::Nc, nn),
        0xd3 => { return None; },
        0xd4 => Instr::CallCC(Cond::Nc, nn),
        0xd5 => Instr::Push(RDE),
        0xd6 => Instr::Sub(Src8::D8(n)),
        0xd7 => Instr::Rst(0x10),
        0xd8 => Instr::RetCC(Cond::C),
        0xd9 => Instr::Reti,
        0xda => Instr::JpCC(Cond::C, nn),
        0xdb => { return None; },
        0xdc => Instr::CallCC(Cond::C, nn),
        0xdd => { return None; },
        0xde => Instr::Sbc(Src8::D8(n)),
        0xdf => Instr::Rst(0x18),

        0xe0 => Instr::Ld(Dst8::IdFF(n), Src8::R8(RA)),
        0xe1 => Instr::Pop(RHL),
        0xe2 => Instr::Ld(Dst8::IdFFRC, Src8::R8(RA)),
        0xe3 => { return None; },
        0xe4 => { return None; },
        0xe5 => Instr::Push(RHL),
        0xe6 => Instr::And(Src8::D8(n)),
        0xe7 => Instr::Rst(0x20),
        0xe8 => Instr::Add16SP(n as i8),
        0xe9 => Instr::Jp(Src16::R16(RHL)),
        0xea => Instr::Ld(Dst8::IdNN(nn), Src8::R8(RA)),
        0xeb => { return None; },
        0xec => { return None; },
        0xed => { return None; },
        0xee => Instr::Xor(Src8::D8(n)),
        0xef => Instr::Rst(0x28),

        0xf0 => Instr::Ld(Dst8::R8(RA), Src8::IdFF(n)),
        0xf1 => Instr::Pop(RAF),
        0xf2 => Instr::Ld(Dst8::R8(RA), Src8::IdFFRC),
        0xf3 => Instr::Di,
        0xf4 => { return None; },
        0xf5 => Instr::Push(RAF),
        0xf6 => Instr::Or(Src8::D8(n)),
        0xf7 => Instr::Rst(0x30),
        0xf8 => Instr::Ld16(Dst16::R16(RHL), Src16::SPD8(n as i8)),
        0xf9 => Instr::Ld16(Dst16::RSP, Src16::R16(RHL)),
        0xfa => Instr::Ld(Dst8::R8(RA), Src8::IdNN(nn)),
        0xfb => Instr::Ei,
        0xfc => { return None; },
        0xfd => { return None; },
        0xfe => Instr::Cp(Src8::D8(n)),
        0xff => Instr::Rst(0x38),
    };
    Some(instr)
}

/// The instruction at an address: a fault where its operand bytes would
/// lie beyond the end of the address space, where one of its three bytes
/// cannot be read, or where the opcode names no instruction.
pub open spec fn instr_at(gb: Gameboy, addr: u16) -> Result<Instr, Fault> {
    if addr > 0xfffd {
        Err(Fault::DecodeOutOfBounds(addr))
    } else {
        match gb.spec_read(addr) {
            Err(e) => Err(e),
            Ok(opcode) => match gb.spec_read((addr + 1) as u16) {
                Err(e) => Err(e),
                Ok(n) => match gb.spec_read((addr + 2) as u16) {
                    Err(e) => Err(e),
                    Ok(n2) => match instr_of_bytes(opcode, n, n2) {
                        Some(instr) => Ok(instr),
                        None => Err(Fault::InvalidOpcode(addr, opcode)),
                    },
                },
            },
        }
    }
}

/// Decode the instruction at an address.
pub fn decode(gb: &Gameboy, addr: u16) -> (r: Result<Instr, Fault>)
    ensures
        r == instr_at(*gb, addr),
        r matches Ok(instr) ==> instr.wf() && instr.has_names(),
{
    if addr > 0xfffd {
        return Err(Fault::DecodeOutOfBounds(addr));
    }
    let opcode = gb.read(addr)?;
    // Grab data from PC+1 and PC+2 in case we need them as arguments
    let n = gb.read(addr + 1)?;
    let n2 = gb.read(addr + 2)?;
    match decode_bytes(opcode, n, n2) {
        Some(instr) => Ok(instr),
        None => Err(Fault::InvalidOpcode(addr, opcode)),
    }
}

/// The machine after an instruction is executed, before the program
/// counter and the cycle counter move on; or the fault that stops the
/// instruction, with the machine as the fault leaves it.
#[verifier::opaque]
pub open spec fn after_exec(gb: Gameboy, instr: Instr) -> Partial<Gameboy> {
    match instr {
        // Control/misc
        Instr::Nop => Ok(gb),
        Instr::Stop => Ok(Gameboy { stopped: true, ..gb }),
        Instr::Halt => Ok(Gameboy { halted: gb.halted || gb.ime, ..gb }),
        Instr::Di => Ok(Gameboy { ime: false, ..gb }),
        Instr::Ei => Ok(Gameboy { ime: true, ..gb }),
        Instr::Ccf => Ok(with_flags(gb, ccf_flags(flags_of(gb)))),
        Instr::Scf => Ok(with_flags(gb, scf_flags(flags_of(gb)))),
        Instr::Daa => stopping_in(gb, after_daa(gb)),
        Instr::Cpl => Ok(after_cpl(gb)),
        // 8-bit load
        Instr::Ld(dst, src) => stopping_in(gb, after_ld(gb, dst, src)),
        Instr::LdInc(dst, src) => stopping_in(gb, after_ld_inc_dec(gb, dst, src, IncDec::Inc)),
        Instr::LdDec(dst, src) => stopping_in(gb, after_ld_inc_dec(gb, dst, src, IncDec::Dec)),
        // 16-bit load
        Instr::Ld16(dst, src) => after_ld_16(gb, dst, src),
        Instr::Push(r_pair) => after_push(gb, r_pair),
        Instr::Pop(r_pair) => stopping_in(gb, after_pop(gb, r_pair)),
        // 8-bit arithmetic
        Instr::Inc(dst) => after_inc_dec(gb, dst, IncDec::Inc),
        Instr::Dec(dst) => after_inc_dec(gb, dst, IncDec::Dec),
        Instr::Add(src) => stopping_in(gb, after_add_sub(gb, src, AddSub::Add, CarryMode::NoCarry)),
        Instr::Adc(src) => stopping_in(gb, after_add_sub(gb, src, AddSub::Add, CarryMode::WithCarry)),
        Instr::Sub(src) => stopping_in(gb, after_add_sub(gb, src, AddSub::Sub, CarryMode::NoCarry)),
        Instr::Sbc(src) => stopping_in(gb, after_add_sub(gb, src, AddSub::Sub, CarryMode::WithCarry)),
        Instr::And(src) => stopping_in(gb, after_bitwise(gb, src, BitwiseOp::And)),
        Instr::Xor(src) => stopping_in(gb, after_bitwise(gb, src, BitwiseOp::Xor)),
        Instr::Or(src) => stopping_in(gb, after_bitwise(gb, src, BitwiseOp::Or)),
        Instr::Cp(src) => stopping_in(gb, after_cp(gb, src)),
        // 16-bit arithmetic
        Instr::Add16HL(src) => Ok(after_add_16_hl(gb, src)),
        Instr::Add16SP(n) => Ok(Gameboy { sp: gb.sp.wrapping_add_signed(n as i16), ..gb }),
        Instr::Inc16(dst) => after_inc_dec_16(gb, dst, IncDec::Inc),
        Instr::Dec16(dst) => after_inc_dec_16(gb, dst, IncDec::Dec),
        // Control-flow
        Instr::Jp(src) => Ok(Gameboy { pc: src.spec_read(gb), ..gb }),
        Instr::JpCC(cc, nn) => Ok(Gameboy { pc: if cc.holds(gb) { nn } else { gb.pc }, ..gb }),
        Instr::Jr(offset) => Ok(Gameboy { pc: jr_target(gb.pc, offset), ..gb }),
        Instr::JrCC(cc, offset) => Ok(
            Gameboy { pc: if cc.holds(gb) { jr_target(gb.pc, offset) } else { gb.pc }, ..gb },
        ),
        Instr::Call(nn) => after_call(gb, nn),
        Instr::CallCC(cc, nn) => if cc.holds(gb) { after_call(gb, nn) } else { Ok(gb) },
        Instr::Ret => stopping_in(gb, after_pop_pc(gb)),
        Instr::RetCC(cc) => if cc.holds(gb) { stopping_in(gb, after_pop_pc(gb)) } else { Ok(gb) },
        Instr::Reti => stopping_in(gb, after_reti(gb)),
        Instr::Rst(n) => after_rst(gb, n),
        // Rotates, shifts, bit operations
        Instr::Rlca => Ok(after_shift_acc(gb, Shift::Rlc)),
        Instr::Rla => Ok(after_shift_acc(gb, Shift::Rl)),
        Instr::Rrca => Ok(after_shift_acc(gb, Shift::Rrc)),
        Instr::Rra => Ok(after_shift_acc(gb, Shift::Rr)),
        Instr::Rlc(dst) => stopping_in(gb, after_shift(gb, Shift::Rlc, dst)),
        Instr::Rrc(dst) => stopping_in(gb, after_shift(gb, Shift::Rrc, dst)),
        Instr::Rl(dst) => stopping_in(gb, after_shift(gb, Shift::Rl, dst)),
        Instr::Rr(dst) => stopping_in(gb, after_shift(gb, Shift::Rr, dst)),
        Instr::Sla(dst) => stopping_in(gb, after_shift(gb, Shift::Sla, dst)),
        Instr::Sra(dst) => stopping_in(gb, after_shift(gb, Shift::Sra, dst)),
        Instr::Srl(dst) => stopping_in(gb, after_shift(gb, Shift::Srl, dst)),
        Instr::Bit(bt, dst) => stopping_in(gb, after_bit(gb, bt, dst)),
        Instr::Res(bt, dst) => stopping_in(gb, after_res(gb, bt, dst)),
        Instr::SetBit(bt, dst) => stopping_in(gb, after_set(gb, bt, dst)),
        Instr::Swap(dst) => stopping_in(gb, after_swap(gb, dst)),
    }
}

/// Executes an instruction, leaving the program counter and the cycle
/// counter to the caller.
pub fn execute(gb: &mut Gameboy, instr: Instr) -> (r: Result<(), Fault>)
    requires
        instr.wf(),
    ensures
        same_surroundings(*old(gb), *final(gb)),
        outcome(*final(gb), r, after_exec(*old(gb), instr)),
{
    reveal(after_exec);
    match instr {
        // Control/misc
        Instr::Nop => {},
        Instr::Stop => stop(gb),
        Instr::Halt => halt(gb),
        Instr::Di => di(gb),
        Instr::Ei => ei(gb),
        Instr::Ccf => ccf(gb),
        Instr::Scf => scf(gb),
        Instr::Daa => { return daa(gb); },
        Instr::Cpl => cpl(gb),
        // 8-bit load
        Instr::Ld(dst, src) => { return ld(gb, dst, src); },
        Instr::LdInc(dst, src) => { return ld_inc_dec(gb, dst, src, IncDec::Inc); },
        Instr::LdDec(dst, src) => { return ld_inc_dec(gb, dst, src, IncDec::Dec); },
        // 16-bit load
        Instr::Ld16(dst, src) => { return ld_16(gb, dst, src); },
        Instr::Push(r_pair) => { return push(gb, r_pair); },
        Instr::Pop(r_pair) => { return pop(gb, r_pair); },
        // 8-bit arithmetic
        Instr::Inc(dst) => { return inc_dec(gb, dst, IncDec::Inc); },
        Instr::Dec(dst) => { return inc_dec(gb, dst, IncDec::Dec); },
        Instr::Add(src) => { return add_sub(gb, src, AddSub::Add, CarryMode::NoCarry); },
        Instr::Adc(src) => { return add_sub(gb, src, AddSub::Add, CarryMode::WithCarry); },
        Instr::Sub(src) => { return add_sub(gb, src, AddSub::Sub, CarryMode::NoCarry); },
        Instr::Sbc(src) => { return add_sub(gb, src, AddSub::Sub, CarryMode::WithCarry); },
        Instr::And(src) => { return bitwise(gb, src, BitwiseOp::And); },
        Instr::Xor(src) => { return bitwise(gb, src, BitwiseOp::Xor); },
        Instr::Or(src) => { return bitwise(gb, src, BitwiseOp::Or); },
        Instr::Cp(src) => { return cp(gb, src); },
        // 16-bit arithmetic
        Instr::Add16HL(src) => add_16_hl(gb, src),
        Instr::Add16SP(n) => add_16_sp(gb, n),
        Instr::Inc16(dst) => { return inc_dec_16(gb, dst, IncDec::Inc); },
        Instr::Dec16(dst) => { return inc_dec_16(gb, dst, IncDec::Dec); },
        // Control-flow
        Instr::Jp(src) => jp(gb, src),
        Instr::JpCC(cc, nn) => jp_cond(gb, cc, nn),
        Instr::Jr(offset) => jr(gb, offset),
        Instr::JrCC(cc, off) => jr_cond(gb, cc, off),
        Instr::Call(nn) => { return call(gb, nn); },
        Instr::CallCC(cc, nn) => { return call_cond(gb, cc, nn); },
        Instr::Ret => { return ret(gb); },
        Instr::RetCC(cc) => { return ret_cond(gb, cc); },
        Instr::Reti => { return reti(gb); },
        Instr::Rst(n) => { return rst(gb, n); },
        // Rotates, shifts, bit operations
        Instr::Rlca => rlca(gb),
        Instr::Rla => rla(gb),
        Instr::Rrca => rrca(gb),
        Instr::Rra => rra(gb),
        Instr::Rlc(dst) => { return rlc(gb, dst); },
        Instr::Rrc(dst) => { return rrc(gb, dst); },
        Instr::Rl(dst) => { return rl(gb, dst); },
        Instr::Rr(dst) => { return rr(gb, dst); },
        Instr::Sla(dst) => { return sla(gb, dst); },
        Instr::Sra(dst) => { return sra(gb, dst); },
        Instr::Srl(dst) => { return srl(gb, dst); },
        Instr::Bit(bt, dst) => { return bit(gb, bt, dst); },
        Instr::Res(bt, dst) => { return res(gb, bt, dst); },
        Instr::SetBit(bt, dst) => { return crate::cpu::exec::set(gb, bt, dst); },
        Instr::Swap(dst) => { return swap(gb, dst); },
    }
    Ok(())
}

/// The machine after the program counter and the cycle counter have moved
/// past an executed instruction.
pub open spec fn moved_past(gb: Gameboy, instr: Instr) -> Gameboy {
    Gameboy { pc: gb.pc.wrapping_add(instr.length(gb)), cycles: (gb.cycles + instr.cycles(gb)) as u64, ..gb }
}

/// Moves the program counter and the cycle counter past an executed
/// instruction.
fn move_past(gb: &mut Gameboy, instr: Instr)
    requires
        instr.wf(),
        old(gb).cycles <= u64::MAX - 6,
    ensures
        *final(gb) == moved_past(*old(gb), instr),
{
    gb.pc = gb.pc.wrapping_add(instr.size(gb));
    gb.cycles = gb.cycles + instr.num_cycles(gb);
}

/// The machine after one instruction: the instruction at the program
/// counter is decoded and executed, then the program counter advances by
/// the instruction's length (0 where the instruction set it) and the cycle
/// counter by its cost. A fault leaves both counters where they were.
pub open spec fn after_step(gb: Gameboy) -> Partial<Gameboy> {
    match instr_at(gb, gb.pc) {
        Err(e) => Err((e, gb)),
        Ok(instr) => match after_exec(gb, instr) {
            Err(stopped) => Err(stopped),
            Ok(g) => Ok(moved_past(g, instr)),
        },
    }
}

/// Decode the instruction at PC, then execute it and update PC and cycle count accordingly.
pub fn step(gb: &mut Gameboy) -> (r: Result<(), Fault>)
    requires
        old(gb).cycles <= u64::MAX - 6,
    ensures
        outcome(*final(gb), r, after_step(*old(gb))),
        r is Ok ==> old(gb).cycles < final(gb).cycles <= old(gb).cycles + 6,
{
    let instr = decode(gb, gb.pc)?;
    execute(gb, instr)?;
    move_past(gb, instr);
    Ok(())
}

} // verus!
