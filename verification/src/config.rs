//! What the program's settings mean: the palette that a name stands for,
//! the scale of the display, and the breakpoints that a list names.

use vstd::prelude::*;
use vstd::string::{StrSliceExecFns, StringExecFns};
use crate::gameboy::Rgb;
use crate::ppu::{PALETTE_GREY, PALETTE_RED, PALETTE_GREEN, PALETTE_BLUE};
use crate::debug::{
    trim, trimmed, radix_number, u16_from_str_radix, same_text, find_char, index_of,
};

verus! {

/// The palette that a name stands for, if the name is one of `grey`,
/// `red`, `green` and `blue`.
pub open spec fn palette_of(name: Seq<char>) -> Option<[Rgb; 4]> {
    if name == "grey"@ {
        Some(PALETTE_GREY)
    } else if name == "red"@ {
        Some(PALETTE_RED)
    } else if name == "green"@ {
        Some(PALETTE_GREEN)
    } else if name == "blue"@ {
        Some(PALETTE_BLUE)
    } else {
        None
    }
}

/// Looks a palette up by its name.
pub fn palette_named(name: &str) -> (palette: Option<[Rgb; 4]>)
    ensures
        palette == palette_of(name@),
{
    if same_text(name, "grey") {
        Some(PALETTE_GREY)
    } else if same_text(name, "red") {
        Some(PALETTE_RED)
    } else if same_text(name, "green") {
        Some(PALETTE_GREEN)
    } else if same_text(name, "blue") {
        Some(PALETTE_BLUE)
    } else {
        None
    }
}

/// The scale of the display: at least 1.
pub fn clamp_scale(scale: u32) -> (clamped: u32)
    ensures
        clamped == (if scale < 1 { 1 } else { scale }),
{
    if scale < 1 {
        1
    } else {
        scale
    }
}

/// The report on an entry of a list of breakpoints that is no address:
/// the entry, without the white space around it, and what is wrong with
/// it.
pub open spec fn entry_complaint(entry: Seq<char>, text: Seq<char>) -> Seq<char> {
    "Failed to parse breakpoint "@ + entry + ": "@ + text
}

/// The breakpoints that a list names from an index on: addresses in
/// hexadecimal, separated by commas, each with white space around it at
/// will. The list ends at its first empty entry, or at the first entry
/// that is no address: the addresses before it are accepted, and the
/// second part reports on it.
pub open spec fn breakpoints_from(list: Seq<char>, from: int) -> (Seq<u16>, Option<Seq<char>>)
    decreases list.len() - from,
{
    let comma = index_of(list, ',', from);
    if !(0 <= from <= list.len()) || comma <= from {
        (Seq::<u16>::empty(), None)
    } else {
        let entry = trimmed(list.subrange(from, comma));
        match radix_number(entry, 16) {
            Err(text) => (Seq::<u16>::empty(), Some(entry_complaint(entry, text))),
            Ok(addr) => if comma >= list.len() {
                (seq![addr], None)
            } else {
                let rest = breakpoints_from(list, comma + 1);
                (seq![addr] + rest.0, rest.1)
            },
        }
    }
}

/// Reads a list of breakpoints: the addresses that were accepted, in the
/// list's order, and the report on the entry that ended the list, if one
/// did.
pub fn parse_breakpoints(list: &str) -> (r: (Vec<u16>, Option<String>))
    ensures
        r.0@ == breakpoints_from(list@, 0).0,
        match breakpoints_from(list@, 0).1 {
            None => r.1 is None,
            Some(text) => r.1 matches Some(message) && message@ == text,
        },
{
    let length = list.unicode_len();
    let mut breakpoints: Vec<u16> = Vec::new();
    let mut complaint: Option<String> = None;
    let mut from: usize = 0;
    let mut done = false;
    while !done
        invariant
            from <= length,
            length == list@.len(),
            !done ==> complaint is None && breakpoints_from(list@, 0) == (
                breakpoints@ + breakpoints_from(list@, from as int).0,
                breakpoints_from(list@, from as int).1,
            ),
            done ==> breakpoints_from(list@, 0).0 == breakpoints@ && (match breakpoints_from(list@, 0).1 {
                None => complaint is None,
                Some(text) => complaint matches Some(message) && message@ == text,
            }),
        decreases (if done { 0 } else { 1 + length - from }),
    {
        let comma = find_char(list, ',', from);
        if comma <= from {
            // Split returns a single empty string when the string being split is empty.
            assert(breakpoints@ + Seq::<u16>::empty() =~= breakpoints@);
            done = true;
        } else {
            let breakpoint = trim(list.substring_char(from, comma));
            let ghost before = breakpoints@;
            match u16_from_str_radix(breakpoint, 16) {
                Ok(addr) => {
                    breakpoints.push(addr);
                    if comma >= length {
                        assert(before + seq![addr] =~= breakpoints@);
                        done = true;
                    } else {
                        assert(before + (seq![addr] + breakpoints_from(list@, comma + 1).0) =~= breakpoints@
                            + breakpoints_from(list@, comma + 1).0);
                        from = comma + 1;
                    }
                },
                Err(e) => {
                    let mut message = String::from_str("Failed to parse breakpoint ");
                    message.append(breakpoint);
                    message.append(": ");
                    message.append(e.as_str());
                    assert(before + Seq::<u16>::empty() =~= before);
                    complaint = Some(message);
                    done = true;
                },
            }
        }
    }
    (breakpoints, complaint)
}

} // verus!
