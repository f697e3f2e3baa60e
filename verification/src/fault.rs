//! Fatal conditions of the emulated machine.

use vstd::prelude::*;
use vstd::string::StringExecFns;
use crate::cpu::text::{hex2, hex4, push_hex2, push_hex4};

verus! {

/// A condition that aborts the operation that met it.
///
/// The cartridge variants carry the address of the access that the bank
/// controller could not serve; the decode variants carry the address of the
/// instruction.
#[derive(Debug, Clone, Copy, PartialEq, Eq)]
pub enum Fault {
    /// A read of the cartridge's ROM window that the cartridge cannot serve.
    RomRead(u16),
    /// A read of the cartridge's RAM window that the cartridge cannot serve.
    RamRead(u16),
    /// A write into the cartridge's ROM window that the cartridge rejects.
    RomWrite(u16),
    /// A write into the cartridge's RAM window that the cartridge rejects.
    RamWrite(u16),
    /// One of the undefined opcodes, with the address it was fetched from.
    InvalidOpcode(u16, u8),
    /// An instruction whose operand bytes would lie beyond the end of the
    /// address space.
    DecodeOutOfBounds(u16),
    /// Decimal adjust met a combination of accumulator and flags that its
    /// table does not hold; carries A and F.
    IllegalDaaState(u8, u8),
}

/// How an operation that faults before it changes anything relates the
/// state before and after: on success the state is the expected one, on a
/// fault the fault is the expected one and nothing has changed.
pub open spec fn written<T>(pre: T, post: T, r: Result<(), Fault>, expected: Result<T, Fault>) -> bool {
    match expected {
        Ok(t) => r is Ok && post == t,
        Err(e) => r == Err::<(), Fault>(e) && post == pre,
    }
}

/// What an operation that may fault part-way leaves: the state that it
/// reaches, or the fault that stops it with the state in which it stops.
pub type Partial<T> = Result<T, (Fault, T)>;

/// The outcome of a step that changes nothing where it faults, as part of
/// an operation that has reached the state `pre`.
pub open spec fn stopping_in<T>(pre: T, step: Result<T, Fault>) -> Partial<T> {
    match step {
        Ok(t) => Ok(t),
        Err(e) => Err((e, pre)),
    }
}

/// How an operation that may fault part-way relates its result and the
/// state after it to the expected ones.
pub open spec fn outcome<T>(post: T, r: Result<(), Fault>, expected: Partial<T>) -> bool {
    match expected {
        Ok(t) => r is Ok && post == t,
        Err((e, t)) => r == Err::<(), Fault>(e) && post == t,
    }
}

impl Fault {
    /// The fault as a line of text, with the address, opcode or registers
    /// that it carries in hexadecimal.
    pub open spec fn text(self) -> Seq<char> {
        match self {
            Fault::RomRead(addr) => "cartridge cannot serve a read of ROM at $"@ + hex4(addr),
            Fault::RamRead(addr) => "cartridge cannot serve a read of RAM at $"@ + hex4(addr),
            Fault::RomWrite(addr) => "cartridge rejects a write to ROM at $"@ + hex4(addr),
            Fault::RamWrite(addr) => "cartridge rejects a write to RAM at $"@ + hex4(addr),
            Fault::InvalidOpcode(addr, opcode) => "invalid opcode $"@ + hex2(opcode) + " at $"@ + hex4(addr),
            Fault::DecodeOutOfBounds(addr) => "instruction runs beyond the end of memory at $"@ + hex4(addr),
            Fault::IllegalDaaState(a, f) => "decimal adjust of an illegal state: A=$"@ + hex2(a) + " F=$"@
                + hex2(f),
        }
    }

    /// Renders the fault as a line of text.
    pub fn message(&self) -> (s: String)
        ensures
            s@ == self.text(),
    {
        match *self {
            Fault::RomRead(addr) => {
                let mut s = String::from_str("cartridge cannot serve a read of ROM at $");
                push_hex4(&mut s, addr);
                s
            },
            Fault::RamRead(addr) => {
                let mut s = String::from_str("cartridge cannot serve a read of RAM at $");
                push_hex4(&mut s, addr);
                s
            },
            Fault::RomWrite(addr) => {
                let mut s = String::from_str("cartridge rejects a write to ROM at $");
                push_hex4(&mut s, addr);
                s
            },
            Fault::RamWrite(addr) => {
                let mut s = String::from_str("cartridge rejects a write to RAM at $");
                push_hex4(&mut s, addr);
                s
            },
            Fault::InvalidOpcode(addr, opcode) => {
                let mut s = String::from_str("invalid opcode $");
                push_hex2(&mut s, opcode);
                s.append(" at $");
                push_hex4(&mut s, addr);
                s
            },
            Fault::DecodeOutOfBounds(addr) => {
                let mut s = String::from_str("instruction runs beyond the end of memory at $");
                push_hex4(&mut s, addr);
                s
            },
            Fault::IllegalDaaState(a, f) => {
                let mut s = String::from_str("decimal adjust of an illegal state: A=$");
                push_hex2(&mut s, a);
                s.append(" F=$");
                push_hex2(&mut s, f);
                s
            },
        }
    }
}

} // verus!
