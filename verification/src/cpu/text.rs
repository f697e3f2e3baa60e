//! Instructions as text, as a disassembler shows them.

use vstd::prelude::*;
use vstd::string::StringExecFns;
use crate::gameboy::{R, RR, RA, RB, RC, RD, RE, RF, RH, RL};
use crate::cpu::instruction::{Src8, Dst8, Src16, Dst16, IncDec, Cond, Instr};

verus! {

/// The digit, as text, of a number below 16.
pub open spec fn digit_text(n: int) -> Seq<char> {
    if n == 0 {
        "0"@
    } else if n == 1 {
        "1"@
    } else if n == 2 {
        "2"@
    } else if n == 3 {
        "3"@
    } else if n == 4 {
        "4"@
    } else if n == 5 {
        "5"@
    } else if n == 6 {
        "6"@
    } else if n == 7 {
        "7"@
    } else if n == 8 {
        "8"@
    } else if n == 9 {
        "9"@
    } else if n == 10 {
        "a"@
    } else if n == 11 {
        "b"@
    } else if n == 12 {
        "c"@
    } else if n == 13 {
        "d"@
    } else if n == 14 {
        "e"@
    } else {
        "f"@
    }
}

/// The digit of a number below 16.
fn digit_str(n: u8) -> (s: &'static str)
    requires
        n < 16,
    ensures
        s@ == digit_text(n as int),
{
    match n {
        0 => "0",
        1 => "1",
        2 => "2",
        3 => "3",
        4 => "4",
        5 => "5",
        6 => "6",
        7 => "7",
        8 => "8",
        9 => "9",
        10 => "a",
        11 => "b",
        12 => "c",
        13 => "d",
        14 => "e",
        _ => "f",
    }
}

/// A byte as two hexadecimal digits.
pub open spec fn hex2(n: u8) -> Seq<char> {
    digit_text(n as int / 16) + digit_text(n as int % 16)
}

/// A 16-bit value as four hexadecimal digits.
pub open spec fn hex4(nn: u16) -> Seq<char> {
    hex2((nn / 256) as u8) + hex2((nn % 256) as u8)
}

/// A number in decimal, without leading zeroes.
pub open spec fn decimal(n: nat) -> Seq<char>
    decreases n,
{
    if n < 10 {
        digit_text(n as int)
    } else {
        decimal(n / 10) + digit_text((n % 10) as int)
    }
}

/// Appends a byte as two hexadecimal digits.
pub fn push_hex2(s: &mut String, n: u8)
    ensures
        final(s)@ == old(s)@ + hex2(n),
{
    s.append(digit_str(n / 16));
    s.append(digit_str(n % 16));
    assert(s@ =~= old(s)@ + hex2(n));
}

/// Appends a 16-bit value as four hexadecimal digits.
pub fn push_hex4(s: &mut String, nn: u16)
    ensures
        final(s)@ == old(s)@ + hex4(nn),
{
    push_hex2(s, (nn / 256) as u8);
    push_hex2(s, (nn % 256) as u8);
    assert(s@ =~= old(s)@ + hex4(nn));
}

/// Appends a number in decimal.
pub fn push_decimal(s: &mut String, n: u64)
    ensures
        final(s)@ == old(s)@ + decimal(n as nat),
    decreases n,
{
    if n >= 10 {
        push_decimal(s, n / 10);
    }
    s.append(digit_str((n % 10) as u8));
    assert(s@ =~= old(s)@ + decimal(n as nat));
}

/// The name of an 8-bit register.
pub open spec fn reg8_text(r: R) -> Seq<char> {
    if r == RA {
        "a"@
    } else if r == RB {
        "b"@
    } else if r == RC {
        "c"@
    } else if r == RD {
        "d"@
    } else if r == RE {
        "e"@
    } else if r == RF {
        "f"@
    } else if r == RH {
        "h"@
    } else {
        "l"@
    }
}

/// Whether a register pair is one of the four that have a name.
pub open spec fn is_named_pair(rr: RR) -> bool {
    (rr.0 == RA && rr.1 == RF) || (rr.0 == RB && rr.1 == RC) || (rr.0 == RD && rr.1 == RE) || (rr.0 == RH
        && rr.1 == RL)
}

/// The name of a 16-bit register.
pub open spec fn reg16_text(rr: RR) -> Seq<char> {
    if rr.0 == RA {
        "af"@
    } else if rr.0 == RB {
        "bc"@
    } else if rr.0 == RD {
        "de"@
    } else {
        "hl"@
    }
}

fn reg8_to_str(r: R) -> (s: &'static str)
    requires
        r < 8,
    ensures
        s@ == reg8_text(r),
{
    if r == RA {
        "a"
    } else if r == RB {
        "b"
    } else if r == RC {
        "c"
    } else if r == RD {
        "d"
    } else if r == RE {
        "e"
    } else if r == RF {
        "f"
    } else if r == RH {
        "h"
    } else {
        "l"
    }
}

fn reg16_to_str(rr: RR) -> (s: &'static str)
    requires
        is_named_pair(rr),
    ensures
        s@ == reg16_text(rr),
{
    if rr.0 == RA {
        "af"
    } else if rr.0 == RB {
        "bc"
    } else if rr.0 == RD {
        "de"
    } else {
        "hl"
    }
}

/// The mark that a load which moves HL puts behind `(hl)`.
pub open spec fn step_mark(inc_dec: Option<IncDec>) -> Seq<char> {
    match inc_dec {
        Some(IncDec::Inc) => "+"@,
        Some(IncDec::Dec) => "-"@,
        None => Seq::<char>::empty(),
    }
}

impl Dst8 {
    /// Whether the operand's registers have names.
    pub open spec fn has_names(self) -> bool {
        match self {
            Dst8::R8(r) => r < 8,
            Dst8::Id(rr) => is_named_pair(rr),
            _ => true,
        }
    }

    /// The operand as text.
    pub open spec fn text(self, inc_dec: Option<IncDec>) -> Seq<char> {
        match self {
            Dst8::R8(r) => reg8_text(r),
            Dst8::Id(rr) => "($"@ + reg16_text(rr) + ")"@ + step_mark(inc_dec),
            Dst8::IdFFRC => "(C)"@,
            Dst8::IdFF(n) => "($"@ + hex2(n) + ")"@,
            Dst8::IdNN(nn) => "($"@ + hex4(nn) + ")"@,
        }
    }
}

impl Src8 {
    /// Whether the operand's registers have names.
    pub open spec fn has_names(self) -> bool {
        match self {
            Src8::R8(r) => r < 8,
            Src8::Id(rr) => is_named_pair(rr),
            _ => true,
        }
    }

    /// The operand as text.
    pub open spec fn text(self, inc_dec: Option<IncDec>) -> Seq<char> {
        match self {
            Src8::R8(r) => reg8_text(r),
            Src8::Id(rr) => "($"@ + reg16_text(rr) + ")"@ + step_mark(inc_dec),
            Src8::IdFFRC => "(C)"@,
            Src8::IdFF(n) => "($"@ + hex2(n) + ")"@,
            Src8::IdNN(nn) => "($"@ + hex4(nn) + ")"@,
            Src8::D8(n) => "$"@ + hex2(n),
        }
    }
}

impl Dst16 {
    /// Whether the operand's registers have names.
    pub open spec fn has_names(self) -> bool {
        match self {
            Dst16::R16(rr) => is_named_pair(rr),
            _ => true,
        }
    }

    /// The operand as text.
    pub open spec fn text(self) -> Seq<char> {
        match self {
            Dst16::R16(rr) => reg16_text(rr),
            Dst16::RSP => "sp"@,
            Dst16::IdNN(nn) => "($"@ + hex4(nn) + ")"@,
        }
    }
}

impl Src16 {
    /// Whether the operand's registers have names.
    pub open spec fn has_names(self) -> bool {
        match self {
            Src16::R16(rr) => is_named_pair(rr),
            _ => true,
        }
    }

    /// The operand as text.
    pub open spec fn text(self) -> Seq<char> {
        match self {
            Src16::R16(rr) => reg16_text(rr),
            Src16::RSP => "sp"@,
            Src16::D16(nn) => "$"@ + hex4(nn),
            Src16::SPD8(n) => "sp + $"@ + hex2(n as u8),
        }
    }
}

impl Cond {
    /// The condition as text.
    pub open spec fn text(self) -> Seq<char> {
        match self {
            Cond::Z => "z"@,
            Cond::Nz => "nz"@,
            Cond::C => "c"@,
            Cond::Nc => "nc"@,
        }
    }
}

fn step_mark_str(inc_dec: Option<IncDec>) -> (s: &'static str)
    ensures
        s@ == step_mark(inc_dec),
{
    match inc_dec {
        Some(IncDec::Inc) => "+",
        Some(IncDec::Dec) => "-",
        None => {
            proof {
                reveal_strlit("");
            }
            assert(""@ =~= Seq::<char>::empty());
            ""
        },
    }
}

fn dst8(s: &mut String, dst: Dst8, inc_dec: Option<IncDec>)
    requires
        dst.has_names(),
    ensures
        final(s)@ == old(s)@ + dst.text(inc_dec),
{
    match dst {
        Dst8::R8(r) => {
            s.append(reg8_to_str(r));
        },
        Dst8::Id(rr) => {
            s.append("($");
            s.append(reg16_to_str(rr));
            s.append(")");
            s.append(step_mark_str(inc_dec));
        },
        Dst8::IdFFRC => {
            s.append("(C)");
        },
        Dst8::IdFF(n) => {
            s.append("($");
            push_hex2(s, n);
            s.append(")");
        },
        Dst8::IdNN(nn) => {
            s.append("($");
            push_hex4(s, nn);
            s.append(")");
        },
    }
    assert(s@ =~= old(s)@ + dst.text(inc_dec));
}

fn src8(s: &mut String, src: Src8, inc_dec: Option<IncDec>)
    requires
        src.has_names(),
    ensures
        final(s)@ == old(s)@ + src.text(inc_dec),
{
    match src {
        Src8::R8(r) => {
            s.append(reg8_to_str(r));
        },
        Src8::Id(rr) => {
            s.append("($");
            s.append(reg16_to_str(rr));
            s.append(")");
            s.append(step_mark_str(inc_dec));
        },
        Src8::IdFFRC => {
            s.append("(C)");
        },
        Src8::IdFF(n) => {
            s.append("($");
            push_hex2(s, n);
            s.append(")");
        },
        Src8::IdNN(nn) => {
            s.append("($");
            push_hex4(s, nn);
            s.append(")");
        },
        Src8::D8(n) => {
            s.append("$");
            push_hex2(s, n);
        },
    }
    assert(s@ =~= old(s)@ + src.text(inc_dec));
}

fn dst16(s: &mut String, dst: Dst16)
    requires
        dst.has_names(),
    ensures
        final(s)@ == old(s)@ + dst.text(),
{
    match dst {
        Dst16::R16(rr) => {
            s.append(reg16_to_str(rr));
        },
        Dst16::RSP => {
            s.append("sp");
        },
        Dst16::IdNN(nn) => {
            s.append("($");
            push_hex4(s, nn);
            s.append(")");
        },
    }
    assert(s@ =~= old(s)@ + dst.text());
}

fn src16(s: &mut String, src: Src16)
    requires
        src.has_names(),
    ensures
        final(s)@ == old(s)@ + src.text(),
{
    match src {
        Src16::R16(rr) => {
            s.append(reg16_to_str(rr));
        },
        Src16::RSP => {
            s.append("sp");
        },
        Src16::D16(nn) => {
            s.append("$");
            push_hex4(s, nn);
        },
        Src16::SPD8(n) => {
            s.append("sp + $");
            push_hex2(s, n as u8);
        },
    }
    assert(s@ =~= old(s)@ + src.text());
}

/// Appends a signed displacement as the two hexadecimal digits of its
/// byte.
fn r8(s: &mut String, n: i8)
    ensures
        final(s)@ == old(s)@ + ("$"@ + hex2(n as u8)),
{
    s.append("$");
    push_hex2(s, n as u8);
    assert(s@ =~= old(s)@ + ("$"@ + hex2(n as u8)));
}

fn cond(s: &mut String, c: Cond)
    ensures
        final(s)@ == old(s)@ + c.text(),
{
    match c {
        Cond::Z => s.append("z"),
        Cond::Nz => s.append("nz"),
        Cond::C => s.append("c"),
        Cond::Nc => s.append("nc"),
    }
}

/// A mnemonic and an 8-bit destination.
fn with_dst8(mnemonic: &str, dst: Dst8, inc_dec: Option<IncDec>) -> (s: String)
    requires
        dst.has_names(),
    ensures
        s@ == mnemonic@ + dst.text(inc_dec),
{
    let mut s = String::from_str(mnemonic);
    dst8(&mut s, dst, inc_dec);
    s
}

/// A mnemonic and an 8-bit source.
fn with_src8(mnemonic: &str, src: Src8) -> (s: String)
    requires
        src.has_names(),
    ensures
        s@ == mnemonic@ + src.text(None),
{
    let mut s = String::from_str(mnemonic);
    src8(&mut s, src, None);
    s
}

/// A mnemonic and a 16-bit destination.
fn with_dst16(mnemonic: &str, dst: Dst16) -> (s: String)
    requires
        dst.has_names(),
    ensures
        s@ == mnemonic@ + dst.text(),
{
    let mut s = String::from_str(mnemonic);
    dst16(&mut s, dst);
    s
}

/// A mnemonic and a 16-bit source.
fn with_src16(mnemonic: &str, src: Src16) -> (s: String)
    requires
        src.has_names(),
    ensures
        s@ == mnemonic@ + src.text(),
{
    let mut s = String::from_str(mnemonic);
    src16(&mut s, src);
    s
}

/// A mnemonic, a condition and, behind a comma, what follows.
fn with_cond(mnemonic: &str, c: Cond) -> (s: String)
    ensures
        s@ == mnemonic@ + c.text() + ", "@,
{
    let mut s = String::from_str(mnemonic);
    cond(&mut s, c);
    s.append(", ");
    s
}

/// A mnemonic, the number of a bit and an 8-bit destination.
fn with_bit(mnemonic: &str, n: u8, dst: Dst8) -> (s: String)
    requires
        dst.has_names(),
    ensures
        s@ == mnemonic@ + decimal(n as nat) + ", "@ + dst.text(None),
{
    let mut s = String::from_str(mnemonic);
    push_decimal(&mut s, n as u64);
    s.append(", ");
    dst8(&mut s, dst, None);
    s
}

/// The letter that marks a load through the high page.
pub open spec fn high_mark(high: bool) -> Seq<char> {
    if high {
        "h"@
    } else {
        Seq::<char>::empty()
    }
}

/// The text of a load: `ld`, with an `h` for an operand in the high
/// page, then destination and source.
pub open spec fn ld_text(dst: Dst8, src: Src8) -> Seq<char> {
    "ld"@ + high_mark(dst is IdFFRC || dst is IdFF) + high_mark(src is IdFFRC || src is IdFF) + " "@
        + dst.text(None) + ", "@ + src.text(None)
}

/// The text of a load that moves HL.
pub open spec fn ld_step_text(dst: Dst8, src: Src8, mode: IncDec) -> Seq<char> {
    "ld "@ + dst.text(Some(mode)) + ", "@ + src.text(Some(mode))
}

fn ld_to_str(dst: Dst8, src: Src8) -> (s: String)
    requires
        dst.has_names(),
        src.has_names(),
    ensures
        s@ == ld_text(dst, src),
{
    let mut s = String::from_str("ld");
    match dst {
        Dst8::IdFFRC | Dst8::IdFF(_) => s.append("h"),
        _ => (),
    };
    match src {
        Src8::IdFFRC | Src8::IdFF(_) => s.append("h"),
        _ => (),
    };
    assert(s@ =~= "ld"@ + high_mark(dst is IdFFRC || dst is IdFF) + high_mark(src is IdFFRC || src is IdFF));
    s.append(" ");
    dst8(&mut s, dst, None);
    s.append(", ");
    src8(&mut s, src, None);
    s
}

fn ld_step_to_str(dst: Dst8, src: Src8, mode: IncDec) -> (s: String)
    requires
        dst.has_names(),
        src.has_names(),
    ensures
        s@ == ld_step_text(dst, src, mode),
{
    let mut s = String::from_str("ld ");
    dst8(&mut s, dst, Some(mode));
    s.append(", ");
    src8(&mut s, src, Some(mode));
    s
}

impl Instr {
    /// Whether the registers that the instruction names have names.
    pub open spec fn has_names(self) -> bool {
        match self {
            Instr::Ld(dst, src) | Instr::LdInc(dst, src) | Instr::LdDec(dst, src) => dst.has_names()
                && src.has_names(),
            Instr::Ld16(dst, src) => dst.has_names() && src.has_names(),
            Instr::Push(rr) | Instr::Pop(rr) => is_named_pair(rr),
            Instr::Inc(dst) | Instr::Dec(dst) => dst.has_names(),
            Instr::Add(src) | Instr::Adc(src) | Instr::Sub(src) | Instr::Sbc(src) | Instr::And(src)
            | Instr::Xor(src) | Instr::Or(src) | Instr::Cp(src) => src.has_names(),
            Instr::Add16HL(src) | Instr::Jp(src) => src.has_names(),
            Instr::Inc16(dst) | Instr::Dec16(dst) => dst.has_names(),
            Instr::Rlc(dst) | Instr::Rrc(dst) | Instr::Rl(dst) | Instr::Rr(dst) | Instr::Sla(dst)
            | Instr::Sra(dst) | Instr::Srl(dst) | Instr::Swap(dst) => dst.has_names(),
            Instr::Bit(_, dst) | Instr::Res(_, dst) | Instr::SetBit(_, dst) => dst.has_names(),
            _ => true,
        }
    }

    /// The instruction as a disassembler shows it: the mnemonic in lower
    /// case, then the operands, destination first. Numbers are in
    /// hexadecimal behind a `$`, but for the number of a bit.
    pub open spec fn text(self) -> Seq<char> {
        match self {
            Instr::Nop => "nop"@,
            Instr::Stop => "stop"@,
            Instr::Halt => "halt"@,
            Instr::Di => "di"@,
            Instr::Ei => "ei"@,
            Instr::Ccf => "ccf"@,
            Instr::Scf => "scf"@,
            Instr::Daa => "daa"@,
            Instr::Cpl => "cpl"@,
            Instr::Ld(dst, src) => ld_text(dst, src),
            Instr::LdInc(dst, src) => ld_step_text(dst, src, IncDec::Inc),
            Instr::LdDec(dst, src) => ld_step_text(dst, src, IncDec::Dec),
            Instr::Ld16(dst, src) => "ld "@ + dst.text() + ", "@ + src.text(),
            Instr::Push(rr) => "push "@ + reg16_text(rr),
            Instr::Pop(rr) => "pop "@ + reg16_text(rr),
            Instr::Inc(dst) => "inc "@ + dst.text(None),
            Instr::Dec(dst) => "dec "@ + dst.text(None),
            Instr::Add(src) => "add "@ + src.text(None),
            Instr::Adc(src) => "adc "@ + src.text(None),
            Instr::Sub(src) => "sub "@ + src.text(None),
            Instr::Sbc(src) => "sbc "@ + src.text(None),
            Instr::And(src) => "and "@ + src.text(None),
            Instr::Xor(src) => "xor "@ + src.text(None),
            Instr::Or(src) => "or "@ + src.text(None),
            Instr::Cp(src) => "cp "@ + src.text(None),
            Instr::Add16HL(src) => "add hl, "@ + src.text(),
            Instr::Add16SP(n) => "add sp, "@ + ("$"@ + hex2(n as u8)),
            Instr::Inc16(dst) => "inc "@ + dst.text(),
            Instr::Dec16(dst) => "dec "@ + dst.text(),
            Instr::Jp(src) => "jp "@ + src.text(),
            Instr::JpCC(c, nn) => "jp "@ + c.text() + ", "@ + Src16::D16(nn).text(),
            Instr::Jr(n) => "jr "@ + ("$"@ + hex2(n as u8)),
            Instr::JrCC(c, n) => "jr "@ + c.text() + ", "@ + ("$"@ + hex2(n as u8)),
            Instr::Call(nn) => "call "@ + Src16::D16(nn).text(),
            Instr::CallCC(c, nn) => "call "@ + c.text() + ", "@ + Src16::D16(nn).text(),
            Instr::Ret => "ret"@,
            Instr::RetCC(c) => "ret "@ + c.text(),
            Instr::Reti => "reti"@,
            Instr::Rst(n) => "rst "@ + Src8::D8(n).text(None),
            Instr::Rlca => "rlca"@,
            Instr::Rla => "rla"@,
            Instr::Rrca => "rrca"@,
            Instr::Rra => "rra"@,
            Instr::Rlc(dst) => "rlc "@ + dst.text(None),
            Instr::Rrc(dst) => "rrc "@ + dst.text(None),
            Instr::Rl(dst) => "rl "@ + dst.text(None),
            Instr::Rr(dst) => "rr "@ + dst.text(None),
            Instr::Sla(dst) => "sla "@ + dst.text(None),
            Instr::Sra(dst) => "sra "@ + dst.text(None),
            Instr::Srl(dst) => "srl "@ + dst.text(None),
            Instr::Bit(n, dst) => "bit "@ + decimal(n as nat) + ", "@ + dst.text(None),
            Instr::Res(n, dst) => "res "@ + decimal(n as nat) + ", "@ + dst.text(None),
            Instr::SetBit(n, dst) => "set "@ + decimal(n as nat) + ", "@ + dst.text(None),
            Instr::Swap(dst) => "swap "@ + dst.text(None),
        }
    }

    /// Renders the instruction as a disassembler shows it.
    pub fn to_str(&self) -> (s: String)
        requires
            self.has_names(),
        ensures
            s@ == self.text(),
    {
        match *self {
            Instr::Nop => String::from_str("nop"),
            Instr::Stop => String::from_str("stop"),
            Instr::Halt => String::from_str("halt"),
            Instr::Di => String::from_str("di"),
            Instr::Ei => String::from_str("ei"),
            Instr::Ccf => String::from_str("ccf"),
            Instr::Scf => String::from_str("scf"),
            Instr::Daa => String::from_str("daa"),
            Instr::Cpl => String::from_str("cpl"),
            Instr::Ld(dst, src) => ld_to_str(dst, src),
            Instr::LdInc(dst, src) => ld_step_to_str(dst, src, IncDec::Inc),
            Instr::LdDec(dst, src) => ld_step_to_str(dst, src, IncDec::Dec),
            Instr::Ld16(dst, src) => {
                let mut s = with_dst16("ld ", dst);
                s.append(", ");
                src16(&mut s, src);
                s
            },
            Instr::Push(rr) => with_src16("push ", Src16::R16(rr)),
            Instr::Pop(rr) => with_src16("pop ", Src16::R16(rr)),
            Instr::Inc(dst) => with_dst8("inc ", dst, None),
            Instr::Dec(dst) => with_dst8("dec ", dst, None),
            Instr::Add(src) => with_src8("add ", src),
            Instr::Adc(src) => with_src8("adc ", src),
            Instr::Sub(src) => with_src8("sub ", src),
            Instr::Sbc(src) => with_src8("sbc ", src),
            Instr::And(src) => with_src8("and ", src),
            Instr::Xor(src) => with_src8("xor ", src),
            Instr::Or(src) => with_src8("or ", src),
            Instr::Cp(src) => with_src8("cp ", src),
            Instr::Add16HL(src) => with_src16("add hl, ", src),
            Instr::Add16SP(n) => {
                let mut s = String::from_str("add sp, ");
                r8(&mut s, n);
                s
            },
            Instr::Inc16(dst) => with_dst16("inc ", dst),
            Instr::Dec16(dst) => with_dst16("dec ", dst),
            Instr::Jp(src) => with_src16("jp ", src),
            Instr::JpCC(c, nn) => {
                let mut s = with_cond("jp ", c);
                src16(&mut s, Src16::D16(nn));
                s
            },
            Instr::Jr(n) => {
                let mut s = String::from_str("jr ");
                r8(&mut s, n);
                s
            },
            Instr::JrCC(c, n) => {
                let mut s = with_cond("jr ", c);
                r8(&mut s, n);
                s
            },
            Instr::Call(nn) => with_src16("call ", Src16::D16(nn)),
            Instr::CallCC(c, nn) => {
                let mut s = with_cond("call ", c);
                src16(&mut s, Src16::D16(nn));
                s
            },
            Instr::Ret => String::from_str("ret"),
            Instr::RetCC(c) => {
                let mut s = String::from_str("ret ");
                cond(&mut s, c);
                s
            },
            Instr::Reti => String::from_str("reti"),
            Instr::Rst(n) => with_src8("rst ", Src8::D8(n)),
            Instr::Rlca => String::from_str("rlca"),
            Instr::Rla => String::from_str("rla"),
            Instr::Rrca => String::from_str("rrca"),
            Instr::Rra => String::from_str("rra"),
            Instr::Rlc(dst) => with_dst8("rlc ", dst, None),
            Instr::Rrc(dst) => with_dst8("rrc ", dst, None),
            Instr::Rl(dst) => with_dst8("rl ", dst, None),
            Instr::Rr(dst) => with_dst8("rr ", dst, None),
            Instr::Sla(dst) => with_dst8("sla ", dst, None),
            Instr::Sra(dst) => with_dst8("sra ", dst, None),
            Instr::Srl(dst) => with_dst8("srl ", dst, None),
            Instr::Bit(n, dst) => with_bit("bit ", n, dst),
            Instr::Res(n, dst) => with_bit("res ", n, dst),
            Instr::SetBit(n, dst) => with_bit("set ", n, dst),
            Instr::Swap(dst) => with_dst8("swap ", dst, None),
        }
    }
}

} // verus!
