//! The debug console: its commands, how a line of input names one, and
//! what a command does to the machine.

use vstd::prelude::*;
use vstd::string::{StrSliceExecFns, StringExecFns};
use std::ops::Range;
use crate::fault::Fault;
use crate::gameboy::Gameboy;
use crate::cpu::step::{decode, instr_at};
use crate::cpu::run::has_breakpoint;
use crate::cpu::text::{hex4, push_hex4};

verus! {

/// Whether a character is white space, as Unicode defines it.
pub open spec fn is_space(c: char) -> bool {
    let code = c as u32;
    (0x09 <= code <= 0x0d) || code == 0x20 || code == 0x85 || code == 0xa0 || code == 0x1680 || (0x2000
        <= code <= 0x200a) || code == 0x2028 || code == 0x2029 || code == 0x202f || code == 0x205f || code
        == 0x3000
}

/// Tells whether a character is white space.
fn is_white_space(c: char) -> (b: bool)
    ensures
        b == is_space(c),
{
    let code = c as u32;
    (0x09 <= code && code <= 0x0d) || code == 0x20 || code == 0x85 || code == 0xa0 || code == 0x1680 || (
    0x2000 <= code && code <= 0x200a) || code == 0x2028 || code == 0x2029 || code == 0x202f || code
        == 0x205f || code == 0x3000
}

/// Where the text starts once its leading white space is skipped.
pub open spec fn text_start(s: Seq<char>, i: int) -> int
    decreases s.len() - i,
{
    if 0 <= i < s.len() && is_space(s[i]) {
        text_start(s, i + 1)
    } else {
        i
    }
}

/// Where the text ends once its trailing white space is dropped, but not
/// before `start`.
pub open spec fn text_end(s: Seq<char>, start: int, j: int) -> int
    decreases j,
{
    if 0 <= start < j <= s.len() && is_space(s[j - 1]) {
        text_end(s, start, j - 1)
    } else {
        j
    }
}

/// A text without its leading and trailing white space.
pub open spec fn trimmed(s: Seq<char>) -> Seq<char> {
    let start = text_start(s, 0);
    s.subrange(start, text_end(s, start, s.len() as int))
}

/// Removes leading and trailing white space.
pub fn trim(s: &str) -> (t: &str)
    ensures
        t@ == trimmed(s@),
{
    let length = s.unicode_len();
    let mut start: usize = 0;
    while start < length && is_white_space(s.get_char(start))
        invariant
            start <= length,
            length == s@.len(),
            text_start(s@, 0) == text_start(s@, start as int),
        decreases length - start,
    {
        start += 1;
    }
    let mut end: usize = length;
    while start < end && is_white_space(s.get_char(end - 1))
        invariant
            start <= end <= length,
            length == s@.len(),
            text_end(s@, start as int, s@.len() as int) == text_end(s@, start as int, end as int),
        decreases end,
    {
        end -= 1;
    }
    s.substring_char(start, end)
}

/// The value of a character as a digit of a radix, if it is one: `0` to
/// `9`, then the letters of either case.
pub open spec fn digit_of(c: char, radix: int) -> Option<int> {
    let code = c as u32 as int;
    let value = if 0x30 <= code <= 0x39 {
        code - 0x30
    } else if 0x61 <= code <= 0x7a {
        code - 0x61 + 10
    } else if 0x41 <= code <= 0x5a {
        code - 0x41 + 10
    } else {
        radix
    };
    if value < radix {
        Some(value)
    } else {
        None
    }
}

/// The number that a run of digits stands for in a radix, if every
/// character is a digit.
pub open spec fn digits_value(digits: Seq<char>, radix: int) -> Option<int>
    decreases digits.len(),
{
    if digits.len() == 0 {
        Some(0)
    } else {
        match (digits_value(digits.drop_last(), radix), digit_of(digits.last(), radix)) {
            (Some(front), Some(last)) => Some(front * radix + last),
            _ => None,
        }
    }
}

/// The 16-bit number that a text stands for in a radix: an optional `+`,
/// then at least one digit, nothing else, and a value that fits.
pub open spec fn radix_value(s: Seq<char>, radix: int) -> Option<u16> {
    let digits = if s.len() > 0 && s[0] == '+' {
        s.subrange(1, s.len() as int)
    } else {
        s
    };
    if digits.len() == 0 {
        None
    } else {
        match digits_value(digits, radix) {
            Some(value) => if value <= 0xffff {
                Some(value as u16)
            } else {
                None
            },
            None => None,
        }
    }
}

/// The text with which `u16::from_str_radix` of std reports that a text
/// is not a number of a radix that fits in 16 bits.
pub uninterp spec fn radix_error_text(s: Seq<char>, radix: u32) -> Seq<char>;

/// `u16::from_str_radix` of std, with its error as text: the number that
/// the text stands for, where it is an optional `+` followed by digits of
/// the radix alone and fits in 16 bits; for every other text an error,
/// whose text is a function of the text and the radix alone.
#[verifier::external_body]
pub(crate) fn u16_from_str_radix(digits: &str, radix: u32) -> (r: Result<u16, String>)
    requires
        2 <= radix <= 36,
    ensures
        match radix_value(digits@, radix as int) {
            Some(value) => r matches Ok(v) && v == value,
            None => r matches Err(message) && message@ == radix_error_text(digits@, radix),
        },
{
    u16::from_str_radix(digits, radix).map_err(|e| e.to_string())
}

/// The number that a text stands for in a radix, or the report that it
/// stands for none.
pub open spec fn radix_number(s: Seq<char>, radix: u32) -> Result<u16, Seq<char>> {
    match radix_value(s, radix as int) {
        Some(value) => Ok(value),
        None => Err(radix_error_text(s, radix)),
    }
}

/// The number that a text of the console stands for: hexadecimal behind a
/// `$`, else decimal.
pub open spec fn number_of(s: Seq<char>) -> Result<u16, Seq<char>> {
    if s.len() > 0 && s[0] == '$' {
        radix_number(s.subrange(1, s.len() as int), 16)
    } else {
        radix_number(s, 10)
    }
}

/// Whether a result is the expected one.
pub open spec fn reads<T>(r: Result<T, String>, expected: Result<T, Seq<char>>) -> bool {
    match expected {
        Ok(value) => r matches Ok(v) && v == value,
        Err(text) => r matches Err(message) && message@ == text,
    }
}

/// Reads a number of the console.
pub fn parse_num(string: &str) -> (r: Result<u16, String>)
    ensures
        reads(r, number_of(string@)),
{
    let length = string.unicode_len();
    if length > 0 && string.get_char(0) == '$' {
        u16_from_str_radix(string.substring_char(1, length), 16)
    } else {
        u16_from_str_radix(string, 10)
    }
}

/// Where a character first stands in a text at or behind an index; the
/// text's length where it stands nowhere.
pub open spec fn index_of(s: Seq<char>, c: char, from: int) -> int
    decreases s.len() - from,
{
    if 0 <= from < s.len() && s[from] != c {
        index_of(s, c, from + 1)
    } else if from < s.len() {
        from
    } else {
        s.len() as int
    }
}

/// Finds a character in a text at or behind an index.
pub fn find_char(s: &str, c: char, from: usize) -> (at: usize)
    ensures
        at == index_of(s@, c, from as int),
        from <= s@.len() ==> from <= at <= s@.len(),
{
    let length = s.unicode_len();
    let mut at: usize = from;
    while at < length && s.get_char(at) != c
        invariant
            length == s@.len(),
            from <= at,
            from <= length ==> at <= length,
            index_of(s@, c, from as int) == index_of(s@, c, at as int),
        decreases length - at,
    {
        at += 1;
    }
    if at < length {
        at
    } else {
        length
    }
}

/// The range of addresses that a text of the console names, as its first
/// and the one behind its last: `start+count`, `start-end`, or a single
/// address. Of more than two numbers only the first two count. A range
/// that would end beyond the last address wraps around.
pub open spec fn range_of(s: Seq<char>) -> Result<(u16, u16), Seq<char>> {
    let plus = index_of(s, '+', 0);
    let minus = index_of(s, '-', 0);
    if plus < s.len() {
        match pair_of_numbers(s, '+', plus) {
            Ok((start, offset)) => Ok((start, start.wrapping_add(offset))),
            Err(text) => Err(text),
        }
    } else if minus < s.len() {
        pair_of_numbers(s, '-', minus)
    } else {
        match number_of(s) {
            Ok(start) => Ok((start, start.wrapping_add(1))),
            Err(text) => Err(text),
        }
    }
}

/// The two numbers on either side of the separator at an index, the
/// second ending before the next separator; or the report on the first of
/// the two that is no number.
pub open spec fn pair_of_numbers(s: Seq<char>, separator: char, at: int) -> Result<(u16, u16), Seq<char>> {
    match number_of(s.subrange(0, at)) {
        Err(text) => Err(text),
        Ok(first) => match number_of(s.subrange(at + 1, index_of(s, separator, at + 1))) {
            Err(text) => Err(text),
            Ok(second) => Ok((first, second)),
        },
    }
}

/// Reads the two numbers on either side of the first separator.
fn parse_pair(s: &str, separator: char, at: usize) -> (r: Result<(u16, u16), String>)
    requires
        at == index_of(s@, separator, 0),
        at < s@.len(),
    ensures
        reads(r, pair_of_numbers(s@, separator, at as int)),
{
    let length = s.unicode_len();
    assert(at < length);
    let next = find_char(s, separator, at + 1);
    let first = parse_num(s.substring_char(0, at))?;
    let second = parse_num(s.substring_char(at + 1, next))?;
    Ok((first, second))
}

/// Reads a range of addresses of the console.
pub fn parse_addr_range(s: &str) -> (r: Result<Range<u16>, String>)
    ensures
        match range_of(s@) {
            Ok((start, end)) => r matches Ok(range) && range.start == start && range.end == end,
            Err(text) => r matches Err(message) && message@ == text,
        },
{
    let length = s.unicode_len();
    let plus = find_char(s, '+', 0);
    if plus < length {
        let (start, offset) = parse_pair(s, '+', plus)?;
        return Ok(Range { start: start, end: start.wrapping_add(offset) });
    }
    let minus = find_char(s, '-', 0);
    if minus < length {
        let (start, end) = parse_pair(s, '-', minus)?;
        return Ok(Range { start: start, end: end });
    }
    let start = parse_num(s)?;
    Ok(Range { start: start, end: start.wrapping_add(1) })
}

/// A command of the debug console.
#[derive(Debug, PartialEq, Eq)]
pub enum DebugCmd {
    Step,
    Over,
    BreakList,
    BreakClear,
    BreakAdd(u16),
    BreakDel(u16),
    StackBase(u16),
    StackView(u16),
    StackViewAll,
    Help,
    Continue,
    Registers,
    View(Range<u16>),
    Disassemble(Range<u16>),
}

/// What a line of input names.
pub enum Parsed {
    /// A command.
    Command(DebugCmd),
    /// No command.
    Unknown,
    /// A command whose number or range is not well formed, with the
    /// report on it.
    Malformed(Seq<char>),
}

/// Whether a text starts with another.
pub open spec fn starts_with(s: Seq<char>, prefix: Seq<char>) -> bool {
    prefix.len() <= s.len() && s.subrange(0, prefix.len() as int) == prefix
}

/// What is left of a text behind a prefix.
pub open spec fn behind(s: Seq<char>, prefix: Seq<char>) -> Seq<char> {
    s.subrange(prefix.len() as int, s.len() as int)
}

/// The command that takes a number.
pub open spec fn numbered(s: Seq<char>, prefix: Seq<char>, make: spec_fn(u16) -> DebugCmd) -> Parsed {
    match number_of(behind(s, prefix)) {
        Ok(n) => Parsed::Command(make(n)),
        Err(text) => Parsed::Malformed(text),
    }
}

/// The command that takes a range of addresses.
pub open spec fn ranged(s: Seq<char>, prefix: Seq<char>, make: spec_fn(Range<u16>) -> DebugCmd) -> Parsed {
    match range_of(behind(s, prefix)) {
        Ok((start, end)) => Parsed::Command(make(Range { start: start, end: end })),
        Err(text) => Parsed::Malformed(text),
    }
}

/// What a line of input names, once its white space is trimmed: the empty
/// line steps; `o`, `h`, `c`, `r`, `bl` and `sva` stand alone; `ba`, `bd`,
/// `sb` and `sv` take a number behind one blank, `v` and `d` a range of
/// addresses.
pub open spec fn command_of(s: Seq<char>) -> Parsed {
    if s == ""@ {
        Parsed::Command(DebugCmd::Step)
    } else if s == "o"@ {
        Parsed::Command(DebugCmd::Over)
    } else if s == "h"@ {
        Parsed::Command(DebugCmd::Help)
    } else if s == "c"@ {
        Parsed::Command(DebugCmd::Continue)
    } else if s == "r"@ {
        Parsed::Command(DebugCmd::Registers)
    } else if s == "bl"@ {
        Parsed::Command(DebugCmd::BreakList)
    } else if starts_with(s, "ba "@) {
        numbered(s, "ba "@, |n: u16| DebugCmd::BreakAdd(n))
    } else if starts_with(s, "bd "@) {
        numbered(s, "bd "@, |n: u16| DebugCmd::BreakDel(n))
    } else if starts_with(s, "sb "@) {
        numbered(s, "sb "@, |n: u16| DebugCmd::StackBase(n))
    } else if starts_with(s, "sv "@) {
        numbered(s, "sv "@, |n: u16| DebugCmd::StackView(n))
    } else if s == "sva"@ {
        Parsed::Command(DebugCmd::StackViewAll)
    } else if starts_with(s, "v "@) {
        ranged(s, "v "@, |range: Range<u16>| DebugCmd::View(range))
    } else if starts_with(s, "d "@) {
        ranged(s, "d "@, |range: Range<u16>| DebugCmd::Disassemble(range))
    } else {
        Parsed::Unknown
    }
}

/// Tells whether two texts are the same.
pub fn same_text(a: &str, b: &str) -> (same: bool)
    ensures
        same == (a@ == b@),
{
    let length = a.unicode_len();
    if length != b.unicode_len() {
        return false;
    }
    let mut i: usize = 0;
    while i < length
        invariant
            i <= length,
            length == a@.len(),
            length == b@.len(),
            forall|j: int| 0 <= j < i ==> a@[j] == b@[j],
        decreases length - i,
    {
        if a.get_char(i) != b.get_char(i) {
            return false;
        }
        i += 1;
    }
    assert(a@ =~= b@);
    true
}

/// What stands behind a prefix, if the text starts with it.
fn strip_prefix<'a>(s: &'a str, prefix: &str) -> (rest: Option<&'a str>)
    ensures
        match rest {
            Some(rest) => starts_with(s@, prefix@) && rest@ == behind(s@, prefix@),
            None => !starts_with(s@, prefix@),
        },
{
    let length = s.unicode_len();
    let prefix_length = prefix.unicode_len();
    if prefix_length > length {
        return None;
    }
    let mut i: usize = 0;
    while i < prefix_length
        invariant
            i <= prefix_length <= length,
            length == s@.len(),
            prefix_length == prefix@.len(),
            forall|j: int| 0 <= j < i ==> s@[j] == prefix@[j],
        decreases prefix_length - i,
    {
        if s.get_char(i) != prefix.get_char(i) {
            assert(s@.subrange(0, prefix_length as int)[i as int] != prefix@[i as int]);
            return None;
        }
        i += 1;
    }
    assert(s@.subrange(0, prefix_length as int) =~= prefix@);
    Some(s.substring_char(prefix_length, length))
}

/// Whether a result is what a line of input names: the command; the
/// complaint about an unknown command; or the report on a number.
pub open spec fn names(r: Result<DebugCmd, String>, parsed: Parsed) -> bool {
    match parsed {
        Parsed::Command(cmd) => r matches Ok(c) && c == cmd,
        Parsed::Unknown => r matches Err(message) && message@ == "Unknown command"@,
        Parsed::Malformed(text) => r matches Err(message) && message@ == text,
    }
}

impl DebugCmd {
    /// The command that trimmed input names.
    pub fn parse(cmd: &str) -> (r: Result<DebugCmd, String>)
        ensures
            names(r, command_of(cmd@)),
    {
        if same_text(cmd, "") {
            return Ok(DebugCmd::Step);
        }
        if same_text(cmd, "o") {
            return Ok(DebugCmd::Over);
        }
        if same_text(cmd, "h") {
            return Ok(DebugCmd::Help);
        }
        if same_text(cmd, "c") {
            return Ok(DebugCmd::Continue);
        }
        if same_text(cmd, "r") {
            return Ok(DebugCmd::Registers);
        }
        if same_text(cmd, "bl") {
            return Ok(DebugCmd::BreakList);
        }
        if let Some(args) = strip_prefix(cmd, "ba ") {
            let addr = parse_num(args)?;
            return Ok(DebugCmd::BreakAdd(addr));
        }
        if let Some(args) = strip_prefix(cmd, "bd ") {
            let addr = parse_num(args)?;
            return Ok(DebugCmd::BreakDel(addr));
        }
        if let Some(args) = strip_prefix(cmd, "sb ") {
            let addr = parse_num(args)?;
            return Ok(DebugCmd::StackBase(addr));
        }
        if let Some(args) = strip_prefix(cmd, "sv ") {
            let n = parse_num(args)?;
            return Ok(DebugCmd::StackView(n));
        }
        if same_text(cmd, "sva") {
            return Ok(DebugCmd::StackViewAll);
        }
        if let Some(args) = strip_prefix(cmd, "v ") {
            let range = parse_addr_range(args)?;
            return Ok(DebugCmd::View(range));
        }
        if let Some(args) = strip_prefix(cmd, "d ") {
            let range = parse_addr_range(args)?;
            return Ok(DebugCmd::Disassemble(range));
        }
        Err(String::from_str("Unknown command"))
    }

    /// The command that a line of input names.
    pub fn new(cmd: &str) -> (r: Result<DebugCmd, String>)
        ensures
            names(r, command_of(trimmed(cmd@))),
    {
        DebugCmd::parse(trim(cmd))
    }
}

/// What a command gives the console to show.
#[derive(Debug)]
pub enum DebugOutput {
    /// Nothing.
    Nothing,
    /// A line of text.
    Message(String),
    /// The breakpoints.
    Breakpoints(Vec<u16>),
    /// The list of commands.
    Help,
    /// The overview of the machine's registers.
    Registers(String),
    /// Addresses and the bytes at them.
    Memory(Vec<(u16, u8)>),
    /// Addresses, the bytes at them, and the instructions that start
    /// there.
    Disassembly(Vec<(u16, u8, String)>),
}

/// What a command answers: what to show, and whether the prompt is left
/// so that the machine runs on.
#[derive(Debug)]
pub struct DebugReply {
    pub exit_prompt: bool,
    pub output: DebugOutput,
}

/// The first address from `from` up to, not including, `end` that cannot
/// be read.
pub open spec fn first_unreadable(gb: Gameboy, from: int, end: int) -> Option<int>
    decreases end - from,
{
    if from >= end {
        None
    } else if gb.spec_read(from as u16) is Err {
        Some(from)
    } else {
        first_unreadable(gb, from + 1, end)
    }
}

/// Whether a list holds the bytes of a range of addresses, in order.
pub open spec fn is_memory_of(lines: Seq<(u16, u8)>, gb: Gameboy, start: int, end: int) -> bool {
    &&& lines.len() == (if end > start { end - start } else { 0 })
    &&& forall|k: int|
        0 <= k < lines.len() ==> (#[trigger] lines[k]).0 == start + k && gb.spec_read((start + k) as u16)
            == Ok::<u8, Fault>(lines[k].1)
}

/// The text that a disassembly shows for an address: the instruction that
/// starts there, if one does.
pub open spec fn disassembled(gb: Gameboy, addr: u16) -> Seq<char> {
    match instr_at(gb, addr) {
        Ok(instr) => instr.text(),
        Err(_) => "(could not disassemble)"@,
    }
}

/// Whether a list holds the disassembly of a range of addresses, in
/// order.
pub open spec fn is_disassembly_of(lines: Seq<(u16, u8, String)>, gb: Gameboy, start: int, end: int) -> bool {
    &&& lines.len() == (if end > start { end - start } else { 0 })
    &&& forall|k: int|
        0 <= k < lines.len() ==> (#[trigger] lines[k]).0 == start + k && gb.spec_read((start + k) as u16)
            == Ok::<u8, Fault>(lines[k].1) && lines[k].2@ == disassembled(gb, (start + k) as u16)
}

/// Reads the bytes of a range of addresses.
fn view_memory(gb: &Gameboy, start: u16, end: u16) -> (r: Result<Vec<(u16, u8)>, Fault>)
    ensures
        match first_unreadable(*gb, start as int, end as int) {
            Some(addr) => gb.spec_read(addr as u16) matches Err(e) && r == Err::<Vec<(u16, u8)>, Fault>(e),
            None => r matches Ok(lines) && is_memory_of(lines@, *gb, start as int, end as int),
        },
{
    let mut lines: Vec<(u16, u8)> = Vec::new();
    let mut addr = start;
    while addr < end
        invariant
            start <= addr || end <= start,
            addr <= end || end <= start,
            addr == start || start < end,
            first_unreadable(*gb, start as int, end as int) == first_unreadable(*gb, addr as int, end as int),
            is_memory_of(lines@, *gb, start as int, addr as int),
        decreases end - addr,
    {
        match gb.read(addr) {
            Ok(byte) => {
                lines.push((addr, byte));
            },
            Err(e) => {
                return Err(e);
            },
        }
        addr += 1;
    }
    Ok(lines)
}

/// Disassembles a range of addresses.
fn disassemble(gb: &Gameboy, start: u16, end: u16) -> (r: Result<Vec<(u16, u8, String)>, Fault>)
    ensures
        match first_unreadable(*gb, start as int, end as int) {
            Some(addr) => gb.spec_read(addr as u16) matches Err(e) && r == Err::<
                Vec<(u16, u8, String)>,
                Fault,
            >(e),
            None => r matches Ok(lines) && is_disassembly_of(lines@, *gb, start as int, end as int),
        },
{
    let mut lines: Vec<(u16, u8, String)> = Vec::new();
    let mut addr = start;
    while addr < end
        invariant
            start <= addr || end <= start,
            addr <= end || end <= start,
            addr == start || start < end,
            first_unreadable(*gb, start as int, end as int) == first_unreadable(*gb, addr as int, end as int),
            is_disassembly_of(lines@, *gb, start as int, addr as int),
        decreases end - addr,
    {
        let byte = match gb.read(addr) {
            Ok(byte) => byte,
            Err(e) => {
                return Err(e);
            },
        };
        let text = match decode(gb, addr) {
            Ok(instr) => instr.to_str(),
            Err(_) => String::from_str("(could not disassemble)"),
        };
        lines.push((addr, byte, text));
        addr += 1;
    }
    Ok(lines)
}

/// A text followed by an address in hexadecimal.
fn with_address(text: &str, addr: u16) -> (s: String)
    ensures
        s@ == text@ + hex4(addr),
{
    let mut s = String::from_str(text);
    push_hex4(&mut s, addr);
    s
}

/// Where a breakpoint stands in the list.
fn find_breakpoint(breakpoints: &Vec<u16>, addr: u16) -> (position: Option<usize>)
    ensures
        match position {
            Some(p) => p < breakpoints@.len() && breakpoints@[p as int] == addr && forall|j: int|
                0 <= j < p ==> breakpoints@[j] != addr,
            None => !breakpoints@.contains(addr),
        },
{
    let mut i: usize = 0;
    while i < breakpoints.len()
        invariant
            i <= breakpoints@.len(),
            forall|j: int| 0 <= j < i ==> breakpoints@[j] != addr,
        decreases breakpoints@.len() - i,
    {
        if breakpoints[i] == addr {
            return Some(i);
        }
        i += 1;
    }
    None
}

impl DebugCmd {
    /// What the command leaves of the debugger's state and of the
    /// machine's, where it succeeds. Stepping over notes where the
    /// instruction at hand ends and leaves step mode; continuing leaves
    /// step mode; the breakpoint commands change the list of breakpoints,
    /// a deleted breakpoint's place being taken by the last of the list.
    pub open spec fn changes(self, pre: Gameboy, post: Gameboy) -> bool {
        let kept = (Gameboy { debug: pre.debug, ..post }) == pre;
        match self {
            DebugCmd::Over => {
                &&& kept
                &&& instr_at(pre, pre.pc) matches Ok(instr)
                &&& post.debug.over_ret_addr == pre.pc.wrapping_add(instr.encoded_length())
                &&& !post.debug.step_mode
                &&& post.debug.breakpoints == pre.debug.breakpoints
                &&& post.debug.stack_base == pre.debug.stack_base
            },
            DebugCmd::Continue => kept && !post.debug.step_mode && post.debug.breakpoints
                == pre.debug.breakpoints && post.debug.over_ret_addr == pre.debug.over_ret_addr
                && post.debug.stack_base == pre.debug.stack_base,
            DebugCmd::BreakClear => kept && post.debug.breakpoints@ == Seq::<u16>::empty()
                && post.debug.step_mode == pre.debug.step_mode && post.debug.over_ret_addr
                == pre.debug.over_ret_addr && post.debug.stack_base == pre.debug.stack_base,
            DebugCmd::BreakAdd(addr) => kept && post.debug.breakpoints@ == pre.debug.breakpoints@.push(addr)
                && post.debug.step_mode == pre.debug.step_mode && post.debug.over_ret_addr
                == pre.debug.over_ret_addr && post.debug.stack_base == pre.debug.stack_base,
            DebugCmd::BreakDel(addr) => {
                let list = pre.debug.breakpoints@;
                let at = choose|p: int| 0 <= p < list.len() && list[p] == addr && forall|j: int|
                    0 <= j < p ==> list[j] != addr;
                kept && post.debug.breakpoints@ == list.update(at, list.last()).drop_last()
                    && post.debug.step_mode == pre.debug.step_mode && post.debug.over_ret_addr
                    == pre.debug.over_ret_addr && post.debug.stack_base == pre.debug.stack_base
            },
            DebugCmd::StackBase(addr) => kept && post.debug.stack_base == addr && post.debug.breakpoints
                == pre.debug.breakpoints && post.debug.step_mode == pre.debug.step_mode
                && post.debug.over_ret_addr == pre.debug.over_ret_addr,
            _ => post == pre,
        }
    }

    /// The complaint with which the command fails, if it fails: stepping
    /// over what is no instruction; adding a breakpoint that exists or
    /// deleting one that does not; showing memory that cannot be read.
    pub open spec fn complaint(self, gb: Gameboy) -> Option<Seq<char>> {
        match self {
            DebugCmd::Over => match instr_at(gb, gb.pc) {
                Ok(_) => None,
                Err(e) => Some("Failed to decode instruction at $"@ + hex4(gb.pc) + ": "@ + e.text()),
            },
            DebugCmd::BreakAdd(addr) => if gb.debug.breakpoints@.contains(addr) {
                Some("Breakpoint already exists"@)
            } else {
                None
            },
            DebugCmd::BreakDel(addr) => if gb.debug.breakpoints@.contains(addr) {
                None
            } else {
                Some("Breakpoint does not exist"@)
            },
            DebugCmd::StackView(n) => unreadable_text(gb, gb.sp as int, gb.sp.wrapping_add(n) as int),
            DebugCmd::StackViewAll => unreadable_text(gb, gb.sp as int, gb.debug.stack_base as int),
            DebugCmd::View(range) => unreadable_text(gb, range.start as int, range.end as int),
            DebugCmd::Disassemble(range) => unreadable_text(gb, range.start as int, range.end as int),
            _ => None,
        }
    }

    /// Whether an output is what the command shows.
    pub open spec fn shows(self, gb: Gameboy, output: DebugOutput) -> bool {
        match self {
            DebugCmd::Step | DebugCmd::Over | DebugCmd::Continue => output is Nothing,
            DebugCmd::BreakList => output matches DebugOutput::Breakpoints(list) && list@
                == gb.debug.breakpoints@,
            DebugCmd::BreakClear => output matches DebugOutput::Message(m) && m@ == "Cleared all breakpoints"@,
            DebugCmd::BreakAdd(addr) => output matches DebugOutput::Message(m) && m@ == "Added breakpoint $"@
                + hex4(addr),
            DebugCmd::BreakDel(addr) => output matches DebugOutput::Message(m) && m@
                == "Deleted breakpoint $"@ + hex4(addr),
            DebugCmd::StackBase(addr) => output matches DebugOutput::Message(m) && m@
                == "Set stack base to $"@ + hex4(addr),
            DebugCmd::StackView(n) => output matches DebugOutput::Memory(lines) && is_memory_of(
                lines@,
                gb,
                gb.sp as int,
                gb.sp.wrapping_add(n) as int,
            ),
            DebugCmd::StackViewAll => output matches DebugOutput::Memory(lines) && is_memory_of(
                lines@,
                gb,
                gb.sp as int,
                gb.debug.stack_base as int,
            ),
            DebugCmd::Help => output is Help,
            DebugCmd::Registers => output matches DebugOutput::Registers(text) && text@ == gb.overview(),
            DebugCmd::View(range) => output matches DebugOutput::Memory(lines) && is_memory_of(
                lines@,
                gb,
                range.start as int,
                range.end as int,
            ),
            DebugCmd::Disassemble(range) => output matches DebugOutput::Disassembly(lines)
                && is_disassembly_of(lines@, gb, range.start as int, range.end as int),
        }
    }

    /// Whether the command leaves the prompt: stepping, stepping over and
    /// continuing do.
    pub open spec fn leaves_prompt(self) -> bool {
        self is Step || self is Over || self is Continue
    }

    /// Carries the command out. A command that fails changes nothing.
    pub fn run(&self, gb: &mut Gameboy) -> (r: Result<DebugReply, String>)
        ensures
            match self.complaint(*old(gb)) {
                Some(text) => r matches Err(message) && message@ == text && *final(gb) == *old(gb),
                None => r matches Ok(reply) && reply.exit_prompt == self.leaves_prompt() && self.shows(
                    *old(gb),
                    reply.output,
                ) && self.changes(*old(gb), *final(gb)),
            },
    {
        match self {
            DebugCmd::Step => Ok(DebugReply { exit_prompt: true, output: DebugOutput::Nothing }),
            DebugCmd::Over => {
                let next_instr = match decode(gb, gb.pc) {
                    Ok(instr) => instr,
                    Err(e) => {
                        let mut message = with_address("Failed to decode instruction at $", gb.pc);
                        message.append(": ");
                        message.append(e.message().as_str());
                        return Err(message);
                    },
                };
                let addr = gb.pc.wrapping_add(next_instr.encoded_size());
                gb.debug.over_ret_addr = addr;
                gb.debug.step_mode = false;
                Ok(DebugReply { exit_prompt: true, output: DebugOutput::Nothing })
            },
            DebugCmd::BreakList => {
                let list = gb.debug.breakpoints.clone();
                Ok(DebugReply { exit_prompt: false, output: DebugOutput::Breakpoints(list) })
            },
            DebugCmd::BreakClear => {
                gb.debug.breakpoints.clear();
                Ok(
                    DebugReply {
                        exit_prompt: false,
                        output: DebugOutput::Message(String::from_str("Cleared all breakpoints")),
                    },
                )
            },
            DebugCmd::BreakAdd(addr) => {
                if has_breakpoint(&gb.debug.breakpoints, *addr) {
                    return Err(String::from_str("Breakpoint already exists"));
                }
                gb.debug.breakpoints.push(*addr);
                Ok(
                    DebugReply {
                        exit_prompt: false,
                        output: DebugOutput::Message(with_address("Added breakpoint $", *addr)),
                    },
                )
            },
            DebugCmd::BreakDel(addr) => {
                let pos = match find_breakpoint(&gb.debug.breakpoints, *addr) {
                    Some(pos) => pos,
                    None => {
                        return Err(String::from_str("Breakpoint does not exist"));
                    },
                };
                gb.debug.breakpoints.swap_remove(pos);
                Ok(
                    DebugReply {
                        exit_prompt: false,
                        output: DebugOutput::Message(with_address("Deleted breakpoint $", *addr)),
                    },
                )
            },
            DebugCmd::StackBase(addr) => {
                gb.debug.stack_base = *addr;
                Ok(
                    DebugReply {
                        exit_prompt: false,
                        output: DebugOutput::Message(with_address("Set stack base to $", *addr)),
                    },
                )
            },
            DebugCmd::StackView(n) => show_memory(gb, gb.sp, gb.sp.wrapping_add(*n)),
            DebugCmd::StackViewAll => show_memory(gb, gb.sp, gb.debug.stack_base),
            DebugCmd::Help => Ok(DebugReply { exit_prompt: false, output: DebugOutput::Help }),
            DebugCmd::Continue => {
                gb.debug.step_mode = false;
                Ok(DebugReply { exit_prompt: true, output: DebugOutput::Nothing })
            },
            DebugCmd::Registers => Ok(
                DebugReply { exit_prompt: false, output: DebugOutput::Registers(gb.to_str()) },
            ),
            DebugCmd::View(range) => show_memory(gb, range.start, range.end),
            DebugCmd::Disassemble(range) => match disassemble(gb, range.start, range.end) {
                Ok(lines) => Ok(DebugReply { exit_prompt: false, output: DebugOutput::Disassembly(lines) }),
                Err(e) => Err(e.message()),
            },
        }
    }
}

/// The complaint about the first address of a range that cannot be read,
/// if there is one.
pub open spec fn unreadable_text(gb: Gameboy, start: int, end: int) -> Option<Seq<char>> {
    match first_unreadable(gb, start, end) {
        Some(addr) => Some(gb.spec_read(addr as u16)->Err_0.text()),
        None => None,
    }
}

/// Answers with the bytes of a range of addresses.
fn show_memory(gb: &Gameboy, start: u16, end: u16) -> (r: Result<DebugReply, String>)
    ensures
        match unreadable_text(*gb, start as int, end as int) {
            Some(text) => r matches Err(message) && message@ == text,
            None => {
                &&& r matches Ok(reply)
                &&& !reply.exit_prompt
                &&& reply.output matches DebugOutput::Memory(lines)
                &&& is_memory_of(lines@, *gb, start as int, end as int)
            },
        },
{
    match view_memory(gb, start, end) {
        Ok(lines) => Ok(DebugReply { exit_prompt: false, output: DebugOutput::Memory(lines) }),
        Err(e) => Err(e.message()),
    }
}

} // verus!
