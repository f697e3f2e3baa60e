//! The machine's registers as the debug console shows them.

use vstd::prelude::*;
use vstd::string::StringExecFns;
use crate::gameboy::{
    Gameboy, has_flag, test_flag, FLAG_Z, FLAG_N, FLAG_H, FLAG_C, IO_LY, IO_LCDC, IO_STAT, IO_P1, RA, RB,
    RC, RD, RE, RF, RH, RL,
};
use crate::cpu::text::{decimal, push_decimal};

verus! {

/// The digit, in upper case, of a number below 16.
pub open spec fn capital_digit_text(n: int) -> Seq<char> {
    if n == 0 {
        "0"@
    } else if n == 1 {
        "1"@
    } else if n == 2 {
        "2"@
    } else if n == 3 {
        "3"@
    } else if n == 4 {
        "4"@
    } else if n == 5 {
        "5"@
    } else if n == 6 {
        "6"@
    } else if n == 7 {
        "7"@
    } else if n == 8 {
        "8"@
    } else if n == 9 {
        "9"@
    } else if n == 10 {
        "A"@
    } else if n == 11 {
        "B"@
    } else if n == 12 {
        "C"@
    } else if n == 13 {
        "D"@
    } else if n == 14 {
        "E"@
    } else {
        "F"@
    }
}

/// The digit, in upper case, of a number below 16.
fn capital_digit_str(n: u8) -> (s: &'static str)
    requires
        n < 16,
    ensures
        s@ == capital_digit_text(n as int),
{
    match n {
        0 => "0",
        1 => "1",
        2 => "2",
        3 => "3",
        4 => "4",
        5 => "5",
        6 => "6",
        7 => "7",
        8 => "8",
        9 => "9",
        10 => "A",
        11 => "B",
        12 => "C",
        13 => "D",
        14 => "E",
        _ => "F",
    }
}

/// A byte as two hexadecimal digits in upper case.
pub open spec fn capital_hex2(n: u8) -> Seq<char> {
    capital_digit_text(n as int / 16) + capital_digit_text(n as int % 16)
}

/// A 16-bit value as four hexadecimal digits in upper case.
pub open spec fn capital_hex4(nn: u16) -> Seq<char> {
    capital_hex2((nn / 256) as u8) + capital_hex2((nn % 256) as u8)
}

/// A number in hexadecimal, in upper case and without leading zeroes.
pub open spec fn capital_hex(n: nat) -> Seq<char>
    decreases n,
{
    if n < 16 {
        capital_digit_text(n as int)
    } else {
        capital_hex(n / 16) + capital_digit_text((n % 16) as int)
    }
}

/// The zeroes that stand before a number's decimal digits to fill six
/// places.
pub open spec fn zero_padding(n: nat) -> Seq<char> {
    if n < 10 {
        "00000"@
    } else if n < 100 {
        "0000"@
    } else if n < 1000 {
        "000"@
    } else if n < 10000 {
        "00"@
    } else if n < 100000 {
        "0"@
    } else {
        ""@
    }
}

/// A flag as the console shows it: its digit in two places.
pub open spec fn flag_text(f: u8, flag: u8) -> Seq<char> {
    if has_flag(f, flag) {
        " 1"@
    } else {
        " 0"@
    }
}

/// Appends a byte as two hexadecimal digits in upper case.
pub fn push_capital_hex2(s: &mut String, n: u8)
    ensures
        final(s)@ == old(s)@ + capital_hex2(n),
{
    s.append(capital_digit_str(n / 16));
    s.append(capital_digit_str(n % 16));
    assert(s@ =~= old(s)@ + capital_hex2(n));
}

/// Appends a 16-bit value as four hexadecimal digits in upper case.
pub fn push_capital_hex4(s: &mut String, nn: u16)
    ensures
        final(s)@ == old(s)@ + capital_hex4(nn),
{
    push_capital_hex2(s, (nn / 256) as u8);
    push_capital_hex2(s, (nn % 256) as u8);
    assert(s@ =~= old(s)@ + capital_hex4(nn));
}

/// Appends a number in hexadecimal, in upper case and without leading
/// zeroes.
pub fn push_capital_hex(s: &mut String, n: u16)
    ensures
        final(s)@ == old(s)@ + capital_hex(n as nat),
    decreases n,
{
    if n >= 16 {
        push_capital_hex(s, n / 16);
    }
    s.append(capital_digit_str((n % 16) as u8));
    assert(s@ =~= old(s)@ + capital_hex(n as nat));
}

/// Appends a label and the byte that it names.
fn push_byte_field(s: &mut String, label: &str, value: u8)
    ensures
        final(s)@ == old(s)@ + label@ + capital_hex2(value),
{
    s.append(label);
    push_capital_hex2(s, value);
}

/// Appends a label and the flag that it names.
fn push_flag_field(s: &mut String, label: &str, f: u8, flag: u8)
    ensures
        final(s)@ == old(s)@ + label@ + flag_text(f, flag),
{
    s.append(label);
    if test_flag(f, flag) {
        s.append(" 1");
    } else {
        s.append(" 0");
    }
}

/// The line of the counters: PC in four digits, SP without leading
/// zeroes, the cycle count in at least six decimal places.
pub open spec fn counters_text(gb: Gameboy) -> Seq<char> {
    "PC: "@ + capital_hex4(gb.pc) + ", SP: "@ + capital_hex(gb.sp as nat) + ", cycles: "@ + zero_padding(
        gb.cycles as nat,
    ) + decimal(gb.cycles as nat)
}

/// The line of the four flags.
pub open spec fn flags_text(f: u8) -> Seq<char> {
    "Z: "@ + flag_text(f, FLAG_Z) + ", N: "@ + flag_text(f, FLAG_N) + ", H: "@ + flag_text(f, FLAG_H)
        + ", C: "@ + flag_text(f, FLAG_C)
}

/// The two lines of the 8-bit registers, each pair's high register above
/// its low one.
pub open spec fn registers_text(regs: [u8; 8]) -> Seq<char> {
    "A: "@ + capital_hex2(regs[RA as int]) + ", B: "@ + capital_hex2(regs[RB as int]) + ", D: "@
        + capital_hex2(regs[RD as int]) + ", H: "@ + capital_hex2(regs[RH as int]) + "\nF: "@ + capital_hex2(
        regs[RF as int],
    ) + ", C: "@ + capital_hex2(regs[RC as int]) + ", E: "@ + capital_hex2(regs[RE as int]) + ", L: "@
        + capital_hex2(regs[RL as int])
}

/// The lines of the ports: the picture's line, control and status, and
/// the controller.
pub open spec fn ports_text(ports: [u8; 0x4d]) -> Seq<char> {
    "LY: "@ + capital_hex2(ports[IO_LY as int]) + ", LCDC: "@ + capital_hex2(ports[IO_LCDC as int])
        + ", STAT: "@ + capital_hex2(ports[IO_STAT as int]) + "\nP1: "@ + capital_hex2(ports[IO_P1 as int])
}

fn counters(gb: &Gameboy) -> (s: String)
    ensures
        s@ == counters_text(*gb),
{
    let mut s = String::from_str("PC: ");
    push_capital_hex4(&mut s, gb.pc);
    s.append(", SP: ");
    push_capital_hex(&mut s, gb.sp);
    s.append(", cycles: ");
    let n = gb.cycles;
    if n < 10 {
        s.append("00000");
    } else if n < 100 {
        s.append("0000");
    } else if n < 1000 {
        s.append("000");
    } else if n < 10000 {
        s.append("00");
    } else if n < 100000 {
        s.append("0");
    } else {
        s.append("");
    }
    push_decimal(&mut s, n);
    s
}

fn flags(f: u8) -> (s: String)
    ensures
        s@ == flags_text(f),
{
    let mut s = String::from_str("");
    proof {
        reveal_strlit("");
        assert(s@ =~= Seq::<char>::empty());
    }
    push_flag_field(&mut s, "Z: ", f, FLAG_Z);
    push_flag_field(&mut s, ", N: ", f, FLAG_N);
    push_flag_field(&mut s, ", H: ", f, FLAG_H);
    push_flag_field(&mut s, ", C: ", f, FLAG_C);
    assert(s@ =~= flags_text(f));
    s
}

fn registers(regs: &[u8; 8]) -> (s: String)
    ensures
        s@ == registers_text(*regs),
{
    let mut s = String::from_str("");
    proof {
        reveal_strlit("");
        assert(s@ =~= Seq::<char>::empty());
    }
    push_byte_field(&mut s, "A: ", regs[RA]);
    push_byte_field(&mut s, ", B: ", regs[RB]);
    push_byte_field(&mut s, ", D: ", regs[RD]);
    push_byte_field(&mut s, ", H: ", regs[RH]);
    push_byte_field(&mut s, "\nF: ", regs[RF]);
    push_byte_field(&mut s, ", C: ", regs[RC]);
    push_byte_field(&mut s, ", E: ", regs[RE]);
    push_byte_field(&mut s, ", L: ", regs[RL]);
    assert(s@ =~= registers_text(*regs));
    s
}

fn ports(gb: &Gameboy) -> (s: String)
    ensures
        s@ == ports_text(gb.io_ports.io_ports),
{
    let mut s = String::from_str("");
    proof {
        reveal_strlit("");
        assert(s@ =~= Seq::<char>::empty());
    }
    push_byte_field(&mut s, "LY: ", gb.io_ports.read(IO_LY));
    push_byte_field(&mut s, ", LCDC: ", gb.io_ports.read(IO_LCDC));
    push_byte_field(&mut s, ", STAT: ", gb.io_ports.read(IO_STAT));
    push_byte_field(&mut s, "\nP1: ", gb.io_ports.read(IO_P1));
    assert(s@ =~= ports_text(gb.io_ports.io_ports));
    s
}

impl Gameboy {
    /// The overview of the registers: the counters, the flags, the 8-bit
    /// registers and the ports, a line each but for the registers, which
    /// take two.
    pub open spec fn overview(&self) -> Seq<char> {
        counters_text(*self) + "\n"@ + flags_text(self.regs[RF as int]) + "\n"@ + registers_text(self.regs)
            + "\n"@ + ports_text(self.io_ports.io_ports)
    }

    /// Renders the overview of the registers.
    pub fn to_str(&self) -> (s: String)
        ensures
            s@ == self.overview(),
    {
        let mut s = counters(self);
        s.append("\n");
        s.append(flags(self.regs[RF]).as_str());
        s.append("\n");
        s.append(registers(&self.regs).as_str());
        s.append("\n");
        s.append(ports(self).as_str());
        s
    }
}

} // verus!
