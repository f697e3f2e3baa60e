//! Save states: a stream of tagged blocks, found through a trailer at the
//! end of the file.
//!
//! A block is a 4-byte identifier, a 1-byte length and that many bytes of
//! payload. Multi-byte numbers are little-endian.

use vstd::prelude::*;
use vstd::slice::{slice_subrange, slice_to_vec};
use vstd::string::StringExecFns;
use crate::cpu::text::{decimal, push_decimal};

verus! {

/// The 16-bit number that two bytes at an offset encode.
pub open spec fn le_u16(bytes: Seq<u8>, i: int) -> u16 {
    (bytes[i] + bytes[i + 1] * 0x100) as u16
}

/// The 32-bit number that four bytes at an offset encode.
pub open spec fn le_u32(bytes: Seq<u8>, i: int) -> u32 {
    (le_u16(bytes, i) + le_u16(bytes, i + 2) * 0x1_0000) as u32
}

/// The 64-bit number that eight bytes at an offset encode.
pub open spec fn le_u64(bytes: Seq<u8>, i: int) -> u64 {
    (le_u32(bytes, i) + le_u32(bytes, i + 4) * 0x1_0000_0000) as u64
}

/// Reads a byte and moves the cursor behind it.
pub fn read_u8(bytes: &[u8], i: &mut usize) -> (value: u8)
    requires
        *old(i) < bytes@.len(),
    ensures
        value == bytes@[*old(i) as int],
        *final(i) == *old(i) + 1,
{
    let value = bytes[*i];
    *i += 1;
    value
}

/// Reads a little-endian 16-bit number and moves the cursor behind it.
pub fn read_u16(bytes: &[u8], i: &mut usize) -> (value: u16)
    requires
        *old(i) + 2 <= bytes@.len(),
    ensures
        value == le_u16(bytes@, *old(i) as int),
        *final(i) == *old(i) + 2,
{
    let value = bytes[*i] as u16 + bytes[*i + 1] as u16 * 0x100;
    *i += 2;
    value
}

/// Reads a little-endian 32-bit number and moves the cursor behind it.
pub fn read_u32(bytes: &[u8], i: &mut usize) -> (value: u32)
    requires
        *old(i) + 4 <= bytes@.len(),
    ensures
        value == le_u32(bytes@, *old(i) as int),
        *final(i) == *old(i) + 4,
{
    let low = read_u16(bytes, i);
    let high = read_u16(bytes, i);
    low as u32 + high as u32 * 0x1_0000
}

/// Reads a little-endian 64-bit number and moves the cursor behind it.
pub fn read_u64(bytes: &[u8], i: &mut usize) -> (value: u64)
    requires
        *old(i) + 8 <= bytes@.len(),
    ensures
        value == le_u64(bytes@, *old(i) as int),
        *final(i) == *old(i) + 8,
{
    let low = read_u32(bytes, i);
    let high = read_u32(bytes, i);
    low as u64 + high as u64 * 0x1_0000_0000
}

/// The text that reports a memory range that points beyond the end of
/// the file: the range's start and size and the file's length, in decimal.
pub open spec fn range_error_text(start: u32, size: u32, file_length: usize) -> Seq<char> {
    "Invalid memory range: start+size points beyond file end (start: "@ + decimal(start as nat) + ", size: "@
        + decimal(size as nat) + ", file length: "@ + decimal(file_length as nat) + ")"@
}

/// Renders the report of a memory range that points beyond the end of the
/// file.
fn format_range_error(start: u32, size: u32, file_length: usize) -> (s: String)
    ensures
        s@ == range_error_text(start, size, file_length),
{
    let mut s = String::from_str("Invalid memory range: start+size points beyond file end (start: ");
    push_decimal(&mut s, start as u64);
    s.append(", size: ");
    push_decimal(&mut s, size as u64);
    s.append(", file length: ");
    push_decimal(&mut s, file_length as u64);
    s.append(")");
    s
}

/// A size and a start, four bytes each, that name a range of the file:
/// the range's start and end, or the report that the range ends beyond the
/// file.
pub open spec fn memory_range_at(bytes: Seq<u8>, i: int) -> Result<(int, int), Seq<char>> {
    let size = le_u32(bytes, i);
    let start = le_u32(bytes, i + 4);
    if start + size > bytes.len() {
        Err(range_error_text(start, size, bytes.len() as usize))
    } else {
        Ok((start as int, start + size))
    }
}

/// Reads a size and a start, and gives the range of the file that they name.
pub fn read_memory_range<'a>(bytes: &'a [u8], i: &mut usize) -> (r: Result<&'a [u8], String>)
    requires
        *old(i) + 8 <= bytes@.len(),
    ensures
        *final(i) == *old(i) + 8,
        match memory_range_at(bytes@, *old(i) as int) {
            Ok((start, end)) => r matches Ok(range) && range@ == bytes@.subrange(start, end),
            Err(text) => r matches Err(message) && message@ == text,
        },
{
    let size = read_u32(bytes, i);
    let start = read_u32(bytes, i);
    if start as u64 + size as u64 > bytes.len() as u64 {
        return Err(format_range_error(start, size, bytes.len()));
    }
    Ok(slice_subrange(bytes, start as usize, start as usize + size as usize))
}

/// The text of a block's complaint: the block's label, then what is wrong.
pub open spec fn complaint(label: Seq<char>, what: Seq<char>) -> Seq<char> {
    label + " block: "@ + what
}

/// Builds the text of a block's complaint.
fn complain(label: &str, what: &str) -> (message: String)
    ensures
        message@ == complaint(label@, what@),
{
    let mut message = String::from_str(label);
    message.append(" block: ");
    message.append(what);
    message
}

/// What stands at the start of a block: the block's length byte, or what
/// is wrong with the block, and where reading stops.
///
/// A block must have `5 + payload` bytes left in the file and start with
/// its identifier, or reading stops where it began; its length byte must
/// then, where `exact` holds, equal `payload`, or reading stops behind the
/// length byte.
pub open spec fn header_at(
    bytes: Seq<u8>,
    i: int,
    tag: Seq<u8>,
    label: Seq<char>,
    payload: int,
    exact: bool,
) -> (Result<u8, Seq<char>>, int) {
    if bytes.len() - i < 5 + payload {
        (Err(complaint(label, "Not enough bytes"@)), i)
    } else if bytes.subrange(i, i + 4) != tag {
        (Err(complaint(label, "Bad identifier"@)), i)
    } else if exact && bytes[i + 4] != payload {
        (Err(complaint(label, "Bad length"@)), i + 5)
    } else {
        (Ok(bytes[i + 4]), i + 5)
    }
}

/// Whether a reader's result and cursor are the expected ones.
pub open spec fn header_read(
    r: Result<u8, String>,
    cursor: usize,
    expected: (Result<u8, Seq<char>>, int),
) -> bool {
    &&& cursor == expected.1
    &&& match expected.0 {
        Ok(length) => r matches Ok(l) && l == length,
        Err(text) => r matches Err(message) && message@ == text,
    }
}

/// Reads the identifier and the length byte of a block.
pub fn read_header(bytes: &[u8], i: &mut usize, tag: &[u8; 4], label: &str, payload: u8, exact: bool) -> (r:
    Result<u8, String>)
    requires
        *old(i) <= bytes@.len(),
    ensures
        header_read(r, *final(i), header_at(bytes@, *old(i) as int, tag@, label@, payload as int, exact)),
        bytes@.len() <= usize::MAX,
{
    if bytes.len() - *i < 5 + payload as usize {
        return Err(complain(label, "Not enough bytes"));
    }
    let start = *i;
    if !(bytes[start] == tag[0] && bytes[start + 1] == tag[1] && bytes[start + 2] == tag[2] && bytes[start
        + 3] == tag[3]) {
        proof {
            let found = bytes@.subrange(start as int, start + 4);
            assert(found[0] == bytes@[start as int] && found[1] == bytes@[start + 1] && found[2] == bytes@[start
                + 2] && found[3] == bytes@[start + 3]);
        }
        return Err(complain(label, "Bad identifier"));
    }
    assert(bytes@.subrange(start as int, start + 4) =~= tag@);
    *i += 4;
    let length = read_u8(bytes, i);
    if exact && length != payload {
        return Err(complain(label, "Bad length"));
    }
    Ok(length)
}

/// Whether a reader's result and cursor are the expected ones.
pub open spec fn block_read<T>(r: Result<T, String>, cursor: usize, expected: (Result<(), Seq<char>>, int)) -> bool {
    &&& cursor == expected.1
    &&& match expected.0 {
        Ok(_) => r is Ok,
        Err(text) => r matches Err(message) && message@ == text,
    }
}

/// The outcome of a block whose length byte must equal its payload and
/// whose payload needs no further check: the block ends behind its
/// payload.
pub open spec fn fixed_block_at(bytes: Seq<u8>, i: int, tag: Seq<u8>, label: Seq<char>, payload: int) -> (
    Result<(), Seq<char>>,
    int,
) {
    match header_at(bytes, i, tag, label, payload, true) {
        (Err(text), cursor) => (Err(text), cursor),
        (Ok(_), cursor) => (Ok(()), cursor + payload),
    }
}

pub const TAG_NAME: [u8; 4] = [0x4e, 0x41, 0x4d, 0x45];
pub const TAG_INFO: [u8; 4] = [0x49, 0x4e, 0x46, 0x4f];
pub const TAG_CORE: [u8; 4] = [0x43, 0x4f, 0x52, 0x45];
pub const TAG_XAOM: [u8; 4] = [0x58, 0x41, 0x4f, 0x4d];
pub const TAG_MBC: [u8; 4] = [0x4d, 0x42, 0x43, 0x20];
pub const TAG_RTC: [u8; 4] = [0x52, 0x54, 0x43, 0x20];
pub const TAG_HUC3: [u8; 4] = [0x48, 0x55, 0x43, 0x33];
pub const TAG_TPP1: [u8; 4] = [0x54, 0x50, 0x50, 0x31];
pub const TAG_MBC7: [u8; 4] = [0x4d, 0x42, 0x43, 0x37];
pub const TAG_SGB: [u8; 4] = [0x53, 0x47, 0x42, 0x20];
pub const TAG_END: [u8; 4] = [0x45, 0x4e, 0x44, 0x20];
pub const TAG_BESS: [u8; 4] = [0x42, 0x45, 0x53, 0x53];

/// Bytes of the trailer that ends a file: the offset of the first block,
/// in four bytes of which the first counts, and the marker `BESS`.
pub const TRAILER_LENGTH: usize = 8;

/// Copies bytes of the file into an array.
fn copy_array<const N: usize>(bytes: &[u8], start: usize) -> (array: [u8; N])
    requires
        start + N <= bytes@.len(),
    ensures
        array@ == bytes@.subrange(start as int, start + N),
{
    let mut array = [0u8; N];
    let length = bytes.len();
    let mut j: usize = 0;
    while j < N
        invariant
            j <= N,
            start + N <= length,
            length == bytes@.len(),
            forall|k: int| 0 <= k < j ==> array[k] == bytes@[start + k],
        decreases N - j,
    {
        array[j] = bytes[start + j];
        j += 1;
    }
    assert(array@ =~= bytes@.subrange(start as int, start + N));
    array
}

/// The name of the emulator that wrote the file.
#[derive(Debug)]
pub struct NameBlock {
    pub name: Vec<u8>,
}

impl NameBlock {
    /// The outcome of reading a name block: its payload must fit in what
    /// is left of the file.
    pub open spec fn outcome(bytes: Seq<u8>, i: int) -> (Result<(), Seq<char>>, int) {
        match header_at(bytes, i, TAG_NAME@, "NAME"@, 0, false) {
            (Err(text), cursor) => (Err(text), cursor),
            (Ok(length), cursor) => if bytes.len() - cursor < length {
                (Err(complaint("NAME"@, "Bad length"@)), cursor)
            } else {
                (Ok(()), cursor + length)
            },
        }
    }

    /// Whether the block is the one that stands at an offset of the file.
    pub open spec fn is_at(&self, bytes: Seq<u8>, i: int) -> bool {
        self.name@ == bytes.subrange(i + 5, i + 5 + bytes[i + 4])
    }

    /// Reads the block at the cursor and moves the cursor to where reading stops.
    pub fn read(bytes: &[u8], i: &mut usize) -> (r: Result<Self, String>)
        requires
            *old(i) <= bytes@.len(),
        ensures
            block_read(r, *final(i), Self::outcome(bytes@, *old(i) as int)),
            r matches Ok(block) ==> block.is_at(bytes@, *old(i) as int),
    {
        let length = read_header(bytes, i, &TAG_NAME, "NAME", 0, false)? as usize;
        if bytes.len() - *i < length {
            return Err(complain("NAME", "Bad length"));
        }
        let block = Self { name: slice_to_vec(slice_subrange(bytes, *i, *i + length)) };
        *i += length;
        Ok(block)
    }
}

/// The title and the checksum of the game that the file belongs to.
#[derive(Debug)]
pub struct InfoBlock {
    pub title: [u8; 16],
    pub checksum: u16,
}

impl InfoBlock {
    /// The outcome of reading the block: whether it is good, and where reading stops.
    pub open spec fn outcome(bytes: Seq<u8>, i: int) -> (Result<(), Seq<char>>, int) {
        fixed_block_at(bytes, i, TAG_INFO@, "INFO"@, 0x12)
    }

    /// Whether the block is the one that stands at an offset of the file.
    pub open spec fn is_at(&self, bytes: Seq<u8>, i: int) -> bool {
        &&& self.title@ == bytes.subrange(i + 5, i + 21)
        &&& self.checksum == le_u16(bytes, i + 21)
    }

    /// Reads the block at the cursor and moves the cursor to where reading stops.
    pub fn read(bytes: &[u8], i: &mut usize) -> (r: Result<Self, String>)
        requires
            *old(i) <= bytes@.len(),
        ensures
            block_read(r, *final(i), Self::outcome(bytes@, *old(i) as int)),
            r matches Ok(block) ==> block.is_at(bytes@, *old(i) as int),
    {
        match read_header(bytes, i, &TAG_INFO, "INFO", 0x12, true) {
            Ok(_) => {},
            Err(message) => {
                return Err(message);
            },
        }
        let title: [u8; 16] = copy_array(bytes, *i);
        *i += 16;
        let checksum = read_u16(bytes, i);
        Ok(Self { title: title, checksum: checksum })
    }
}

/// The state of the machine's core, and where in the file its memories
/// lie.
#[derive(Debug)]
pub struct CoreBlock<'a> {
    pub major: u16,
    pub minor: u16,
    pub model: [u8; 4],
    pub pc: u16,
    pub af: u16,
    pub bc: u16,
    pub de: u16,
    pub hl: u16,
    pub sp: u16,
    pub ime: u8,  // 0 or 1
    pub ie: u8,
    pub execution_state: u8,  // 0 = running, 1 = halted, 2 = stopped
    pub reserved: u8,  // Must be 0
    pub memory_mapped_registers: [u8; 128],
    pub ram: &'a [u8],
    pub vram: &'a [u8],
    pub mbc_ram: &'a [u8],
    pub oam: &'a [u8],
    pub hram: &'a [u8],
    pub bgp: &'a [u8],
    pub obp: &'a [u8],
}

/// The first of the memory ranges numbered `from` to `count - 1`, eight
/// bytes each from an offset on, that points beyond the end of the file.
pub open spec fn first_bad_range(bytes: Seq<u8>, i: int, from: int, count: int) -> Option<int>
    decreases count - from,
{
    if from >= count {
        None
    } else if memory_range_at(bytes, i + 8 * from) is Err {
        Some(from)
    } else {
        first_bad_range(bytes, i, from + 1, count)
    }
}

/// The outcome of a block that ends in memory ranges: the first range
/// that points beyond the file stops the reading behind it, with its
/// report.
pub open spec fn ranged_block_at(
    bytes: Seq<u8>,
    i: int,
    tag: Seq<u8>,
    label: Seq<char>,
    payload: int,
    ranges_at: int,
    count: int,
) -> (Result<(), Seq<char>>, int) {
    match header_at(bytes, i, tag, label, payload, true) {
        (Err(text), cursor) => (Err(text), cursor),
        (Ok(_), cursor) => match first_bad_range(bytes, i + ranges_at, 0, count) {
            Some(k) => (
                Err(memory_range_at(bytes, i + ranges_at + 8 * k)->Err_0),
                i + ranges_at + 8 * (k + 1),
            ),
            None => (Ok(()), cursor + payload),
        },
    }
}

/// The bytes of the file that a memory range at an offset names.
pub open spec fn range_bytes(bytes: Seq<u8>, i: int) -> Seq<u8> {
    bytes.subrange(le_u32(bytes, i + 4) as int, le_u32(bytes, i + 4) + le_u32(bytes, i))
}

/// Reads `count` memory ranges, and stops behind the first that points
/// beyond the end of the file.
fn read_memory_ranges<'a>(bytes: &'a [u8], i: &mut usize, count: usize) -> (r: Result<Vec<&'a [u8]>, String>)
    requires
        *old(i) + 8 * count <= bytes@.len(),
        count <= 8,
    ensures
        match first_bad_range(bytes@, *old(i) as int, 0, count as int) {
            Some(k) => r matches Err(message) && memory_range_at(bytes@, *old(i) + 8 * k) matches Err(text)
                && message@ == text && *final(i) == *old(i) + 8 * (k + 1),
            None => r matches Ok(ranges) && ranges@.len() == count && *final(i) == *old(i) + 8 * count && forall|
                k: int,
            | 0 <= k < count ==> (#[trigger] ranges@[k])@ == range_bytes(bytes@, *old(i) + 8 * k),
        },
{
    let ghost start = *i as int;
    let mut ranges: Vec<&'a [u8]> = Vec::new();
    let mut k: usize = 0;
    while k < count
        invariant
            k <= count <= 8,
            start == *old(i),
            start + 8 * count <= bytes@.len(),
            *i == start + 8 * k,
            ranges@.len() == k,
            first_bad_range(bytes@, start, 0, count as int) == first_bad_range(bytes@, start, k as int, count as int),
            forall|j: int| 0 <= j < k ==> (#[trigger] ranges@[j])@ == range_bytes(bytes@, start + 8 * j),
        decreases count - k,
    {
        match read_memory_range(bytes, i) {
            Ok(range) => {
                assert(memory_range_at(bytes@, start + 8 * k) is Ok);
                ranges.push(range);
            },
            Err(message) => {
                assert(memory_range_at(bytes@, start + 8 * k) is Err);
                assert(first_bad_range(bytes@, start, k as int, count as int) == Some(k as int));
                return Err(message);
            },
        }
        k += 1;
    }
    Ok(ranges)
}

impl<'a> CoreBlock<'a> {
    /// The outcome of reading the block: whether it is good, and where reading stops.
    pub open spec fn outcome(bytes: Seq<u8>, i: int) -> (Result<(), Seq<char>>, int) {
        ranged_block_at(bytes, i, TAG_CORE@, "CORE"@, 0xd0, 157, 7)
    }

    /// Whether the block is the one that stands at an offset of the file.
    pub open spec fn is_at(&self, bytes: Seq<u8>, i: int) -> bool {
        &&& self.major == le_u16(bytes, i + 5)
        &&& self.minor == le_u16(bytes, i + 7)
        &&& self.model@ == bytes.subrange(i + 9, i + 13)
        &&& self.pc == le_u16(bytes, i + 13)
        &&& self.af == le_u16(bytes, i + 15)
        &&& self.bc == le_u16(bytes, i + 17)
        &&& self.de == le_u16(bytes, i + 19)
        &&& self.hl == le_u16(bytes, i + 21)
        &&& self.sp == le_u16(bytes, i + 23)
        &&& self.ime == bytes[i + 25]
        &&& self.ie == bytes[i + 26]
        &&& self.execution_state == bytes[i + 27]
        &&& self.reserved == bytes[i + 28]
        &&& self.memory_mapped_registers@ == bytes.subrange(i + 29, i + 157)
        &&& self.ram@ == range_bytes(bytes, i + 157)
        &&& self.vram@ == range_bytes(bytes, i + 165)
        &&& self.mbc_ram@ == range_bytes(bytes, i + 173)
        &&& self.oam@ == range_bytes(bytes, i + 181)
        &&& self.hram@ == range_bytes(bytes, i + 189)
        &&& self.bgp@ == range_bytes(bytes, i + 197)
        &&& self.obp@ == range_bytes(bytes, i + 205)
    }

    /// Reads the block at the cursor and moves the cursor to where reading stops.
    pub fn read(bytes: &'a [u8], i: &mut usize) -> (r: Result<Self, String>)
        requires
            *old(i) <= bytes@.len(),
        ensures
            block_read(r, *final(i), Self::outcome(bytes@, *old(i) as int)),
            r matches Ok(block) ==> block.is_at(bytes@, *old(i) as int),
    {
        match read_header(bytes, i, &TAG_CORE, "CORE", 0xd0, true) {
            Ok(_) => {},
            Err(message) => {
                return Err(message);
            },
        }
        let major = read_u16(bytes, i);
        let minor = read_u16(bytes, i);
        let model: [u8; 4] = copy_array(bytes, *i);
        *i += 4;
        let pc = read_u16(bytes, i);
        let af = read_u16(bytes, i);
        let bc = read_u16(bytes, i);
        let de = read_u16(bytes, i);
        let hl = read_u16(bytes, i);
        let sp = read_u16(bytes, i);
        let ime = read_u8(bytes, i);
        let ie = read_u8(bytes, i);
        let execution_state = read_u8(bytes, i);
        let reserved = read_u8(bytes, i);

        let memory_mapped_registers: [u8; 128] = copy_array(bytes, *i);
        *i += 128;

        let ranges = match read_memory_ranges(bytes, i, 7) {
            Ok(ranges) => ranges,
            Err(message) => {
                return Err(message);
            },
        };
        let ram = ranges[0];
        let vram = ranges[1];
        let mbc_ram = ranges[2];
        let oam = ranges[3];
        let hram = ranges[4];
        let bgp = ranges[5];
        let obp = ranges[6];

        Ok(
            Self {
                major,
                minor,
                model,
                pc,
                af,
                bc,
                de,
                hl,
                sp,
                ime,
                ie,
                execution_state,
                reserved,
                memory_mapped_registers,
                ram,
                vram,
                mbc_ram,
                oam,
                hram,
                bgp,
                obp,
            },
        )
    }
}

/// A copy of the second part of object memory.
#[derive(Debug)]
pub struct XaomBlock {
    pub bytes: [u8; 0x60],
}

impl XaomBlock {
    /// The outcome of reading the block: whether it is good, and where reading stops.
    pub open spec fn outcome(bytes: Seq<u8>, i: int) -> (Result<(), Seq<char>>, int) {
        fixed_block_at(bytes, i, TAG_XAOM@, "XAOM"@, 0x60)
    }

    /// Whether the block is the one that stands at an offset of the file.
    pub open spec fn is_at(&self, bytes: Seq<u8>, i: int) -> bool {
        self.bytes@ == bytes.subrange(i + 5, i + 5 + 0x60)
    }

    /// Reads the block at the cursor and moves the cursor to where reading stops.
    pub fn read(bytes: &[u8], i: &mut usize) -> (r: Result<Self, String>)
        requires
            *old(i) <= bytes@.len(),
        ensures
            block_read(r, *final(i), Self::outcome(bytes@, *old(i) as int)),
            r matches Ok(block) ==> block.is_at(bytes@, *old(i) as int),
    {
        match read_header(bytes, i, &TAG_XAOM, "XAOM", 0x60, true) {
            Ok(_) => {},
            Err(message) => {
                return Err(message);
            },
        }
        let xaom_bytes: [u8; 0x60] = copy_array(bytes, *i);
        *i += 0x60;
        Ok(Self { bytes: xaom_bytes })
    }
}

/// The registers of the bank controller: addresses and the bytes last
/// written to them.
#[derive(Debug)]
pub struct MbcBlock {
    pub registers: Vec<(u16, u8)>,
}

impl MbcBlock {
    /// The outcome of reading a controller block: its length must be a
    /// multiple of three and fit in what is left of the file.
    pub open spec fn outcome(bytes: Seq<u8>, i: int) -> (Result<(), Seq<char>>, int) {
        match header_at(bytes, i, TAG_MBC@, "MBC"@, 3, false) {
            (Err(text), cursor) => (Err(text), cursor),
            (Ok(length), cursor) => if length % 3 != 0 || length > bytes.len() - cursor {
                (Err(complaint("MBC"@, "Bad length"@)), cursor)
            } else {
                (Ok(()), cursor + length)
            },
        }
    }

    /// Whether the block is the one that stands at an offset of the file.
    pub open spec fn is_at(&self, bytes: Seq<u8>, i: int) -> bool {
        &&& self.registers@.len() == bytes[i + 4] / 3
        &&& forall|k: int|
            0 <= k < self.registers@.len() ==> #[trigger] self.registers@[k] == (
                le_u16(bytes, i + 5 + 3 * k),
                bytes[i + 5 + 3 * k + 2],
            )
    }

    /// Reads the block at the cursor and moves the cursor to where reading stops.
    pub fn read(bytes: &[u8], i: &mut usize) -> (r: Result<Self, String>)
        requires
            *old(i) <= bytes@.len(),
        ensures
            block_read(r, *final(i), Self::outcome(bytes@, *old(i) as int)),
            r matches Ok(block) ==> block.is_at(bytes@, *old(i) as int),
    {
        let length = match read_header(bytes, i, &TAG_MBC, "MBC", 3, false) {
            Ok(length) => length as usize,
            Err(message) => {
                return Err(message);
            },
        };
        if length % 3 != 0 || length > bytes.len() - *i {
            return Err(complain("MBC", "Bad length"));
        }
        let ghost start = *i as int;
        let count = length / 3;
        let mut registers: Vec<(u16, u8)> = Vec::new();
        let mut k: usize = 0;
        while k < count
            invariant
                k <= count,
                start + 3 * count <= bytes@.len(),
                *i == start + 3 * k,
                registers@.len() == k,
                forall|j: int|
                    0 <= j < k ==> #[trigger] registers@[j] == (
                        le_u16(bytes@, start + 3 * j),
                        bytes@[start + 3 * j + 2],
                    ),
            decreases count - k,
        {
            let addr = read_u16(bytes, i);
            let byte = read_u8(bytes, i);
            registers.push((addr, byte));
            k += 1;
        }
        Ok(Self { registers })
    }
}

/// The state of a real-time clock.
#[derive(Debug)]
pub struct RtcBlock {
    pub seconds: u8,
    pub minutes: u8,
    pub hours: u8,
    pub days_low: u8,
    pub days_high: u8,
    pub latched_seconds: u8,
    pub latched_minutes: u8,
    pub latched_hours: u8,
    pub latched_days_low: u8,
    pub latched_days_high: u8,
    pub unix_timestamp: u64,
}

impl RtcBlock {
    /// The outcome of reading the block: whether it is good, and where reading stops.
    pub open spec fn outcome(bytes: Seq<u8>, i: int) -> (Result<(), Seq<char>>, int) {
        fixed_block_at(bytes, i, TAG_RTC@, "RTC"@, 0x30)
    }

    /// Whether the block is the one that stands at an offset of the file.
    /// Each register takes four bytes, of which the first holds it.
    pub open spec fn is_at(&self, bytes: Seq<u8>, i: int) -> bool {
        &&& self.seconds == bytes[i + 5]
        &&& self.minutes == bytes[i + 9]
        &&& self.hours == bytes[i + 13]
        &&& self.days_low == bytes[i + 17]
        &&& self.days_high == bytes[i + 21]
        &&& self.latched_seconds == bytes[i + 25]
        &&& self.latched_minutes == bytes[i + 29]
        &&& self.latched_hours == bytes[i + 33]
        &&& self.latched_days_low == bytes[i + 37]
        &&& self.latched_days_high == bytes[i + 41]
        &&& self.unix_timestamp == le_u64(bytes, i + 45)
    }

    /// Reads the block at the cursor and moves the cursor to where reading stops.
    pub fn read(bytes: &[u8], i: &mut usize) -> (r: Result<Self, String>)
        requires
            *old(i) <= bytes@.len(),
        ensures
            block_read(r, *final(i), Self::outcome(bytes@, *old(i) as int)),
            r matches Ok(block) ==> block.is_at(bytes@, *old(i) as int),
    {
        match read_header(bytes, i, &TAG_RTC, "RTC", 0x30, true) {
            Ok(_) => {},
            Err(message) => {
                return Err(message);
            },
        }
        // Don't use read_u8 here because of required 3-byte padding.
        let seconds = bytes[*i];
        *i += 4;
        let minutes = bytes[*i];
        *i += 4;
        let hours = bytes[*i];
        *i += 4;
        let days_low = bytes[*i];
        *i += 4;
        let days_high = bytes[*i];
        *i += 4;
        let latched_seconds = bytes[*i];
        *i += 4;
        let latched_minutes = bytes[*i];
        *i += 4;
        let latched_hours = bytes[*i];
        *i += 4;
        let latched_days_low = bytes[*i];
        *i += 4;
        let latched_days_high = bytes[*i];
        *i += 4;
        let unix_timestamp = read_u64(bytes, i);
        Ok(
            Self {
                seconds,
                minutes,
                hours,
                days_low,
                days_high,
                latched_seconds,
                latched_minutes,
                latched_hours,
                latched_days_low,
                latched_days_high,
                unix_timestamp,
            },
        )
    }
}

/// The state of a HuC-3 controller's clock and alarm.
#[derive(Debug)]
pub struct Huc3Block {
    pub unix_timestamp: u64,
    pub rtc_minutes: u16,
    pub rtc_days: u16,
    pub alarm_minutes: u16,
    pub alarm_days: u16,
    pub alarm_enabled: u8,  // 0 or 1
}

impl Huc3Block {
    /// The outcome of reading a HuC-3 block: its last byte, which says
    /// whether the alarm is enabled, must be 0 or 1.
    pub open spec fn outcome(bytes: Seq<u8>, i: int) -> (Result<(), Seq<char>>, int) {
        match header_at(bytes, i, TAG_HUC3@, "HUC3"@, 0x11, true) {
            (Err(text), cursor) => (Err(text), cursor),
            (Ok(_), cursor) => if bytes[i + 21] > 1 {
                (Err(complaint("HUC3"@, "Bad value for alarm_enabled"@)), cursor + 0x11)
            } else {
                (Ok(()), cursor + 0x11)
            },
        }
    }

    /// Whether the block is the one that stands at an offset of the file.
    pub open spec fn is_at(&self, bytes: Seq<u8>, i: int) -> bool {
        &&& self.unix_timestamp == le_u64(bytes, i + 5)
        &&& self.rtc_minutes == le_u16(bytes, i + 13)
        &&& self.rtc_days == le_u16(bytes, i + 15)
        &&& self.alarm_minutes == le_u16(bytes, i + 17)
        &&& self.alarm_days == le_u16(bytes, i + 19)
        &&& self.alarm_enabled == bytes[i + 21]
    }

    /// Reads the block at the cursor and moves the cursor to where reading stops.
    pub fn read(bytes: &[u8], i: &mut usize) -> (r: Result<Self, String>)
        requires
            *old(i) <= bytes@.len(),
        ensures
            block_read(r, *final(i), Self::outcome(bytes@, *old(i) as int)),
            r matches Ok(block) ==> block.is_at(bytes@, *old(i) as int),
    {
        match read_header(bytes, i, &TAG_HUC3, "HUC3", 0x11, true) {
            Ok(_) => {},
            Err(message) => {
                return Err(message);
            },
        }
        let unix_timestamp = read_u64(bytes, i);
        let rtc_minutes = read_u16(bytes, i);
        let rtc_days = read_u16(bytes, i);
        let alarm_minutes = read_u16(bytes, i);
        let alarm_days = read_u16(bytes, i);
        let alarm_enabled = read_u8(bytes, i);
        if alarm_enabled > 1 {
            return Err(complain("HUC3", "Bad value for alarm_enabled"));
        }
        Ok(Self { unix_timestamp, rtc_minutes, rtc_days, alarm_minutes, alarm_days, alarm_enabled })
    }
}

/// The state of a TPP1 controller's clock.
#[derive(Debug)]
pub struct Tpp1Block {
    pub unix_timestamp: u64,
    pub rtc: u32,
    pub latched_rtc: u32,
    pub mr4: u8,
}

impl Tpp1Block {
    /// The outcome of reading the block: whether it is good, and where reading stops.
    pub open spec fn outcome(bytes: Seq<u8>, i: int) -> (Result<(), Seq<char>>, int) {
        fixed_block_at(bytes, i, TAG_TPP1@, "TPP1"@, 0x11)
    }

    /// Whether the block is the one that stands at an offset of the file.
    pub open spec fn is_at(&self, bytes: Seq<u8>, i: int) -> bool {
        &&& self.unix_timestamp == le_u64(bytes, i + 5)
        &&& self.rtc == le_u32(bytes, i + 13)
        &&& self.latched_rtc == le_u32(bytes, i + 17)
        &&& self.mr4 == bytes[i + 21]
    }

    /// Reads the block at the cursor and moves the cursor to where reading stops.
    pub fn read(bytes: &[u8], i: &mut usize) -> (r: Result<Self, String>)
        requires
            *old(i) <= bytes@.len(),
        ensures
            block_read(r, *final(i), Self::outcome(bytes@, *old(i) as int)),
            r matches Ok(block) ==> block.is_at(bytes@, *old(i) as int),
    {
        match read_header(bytes, i, &TAG_TPP1, "TPP1", 0x11, true) {
            Ok(_) => {},
            Err(message) => {
                return Err(message);
            },
        }
        let unix_timestamp = read_u64(bytes, i);
        let rtc = read_u32(bytes, i);
        let latched_rtc = read_u32(bytes, i);
        let mr4 = read_u8(bytes, i);
        Ok(Self { unix_timestamp, rtc, latched_rtc, mr4 })
    }
}

/// The state of an MBC7 controller.
#[derive(Debug)]
pub struct Mbc7Block {
    pub flags: u8,
    pub argument_bits_left: u8,
    pub eeprom_command: u16,
    pub pending_bits: u16,
    pub latched_gyro_x: u16,
    pub latched_gyro_y: u16,
}

impl Mbc7Block {
    /// The outcome of reading the block: whether it is good, and where reading stops.
    pub open spec fn outcome(bytes: Seq<u8>, i: int) -> (Result<(), Seq<char>>, int) {
        fixed_block_at(bytes, i, TAG_MBC7@, "MBC7"@, 0x0a)
    }

    /// Whether the block is the one that stands at an offset of the file.
    pub open spec fn is_at(&self, bytes: Seq<u8>, i: int) -> bool {
        &&& self.flags == bytes[i + 5]
        &&& self.argument_bits_left == bytes[i + 6]
        &&& self.eeprom_command == le_u16(bytes, i + 7)
        &&& self.pending_bits == le_u16(bytes, i + 9)
        &&& self.latched_gyro_x == le_u16(bytes, i + 11)
        &&& self.latched_gyro_y == le_u16(bytes, i + 13)
    }

    /// Reads the block at the cursor and moves the cursor to where reading stops.
    pub fn read(bytes: &[u8], i: &mut usize) -> (r: Result<Self, String>)
        requires
            *old(i) <= bytes@.len(),
        ensures
            block_read(r, *final(i), Self::outcome(bytes@, *old(i) as int)),
            r matches Ok(block) ==> block.is_at(bytes@, *old(i) as int),
    {
        match read_header(bytes, i, &TAG_MBC7, "MBC7", 0x0a, true) {
            Ok(_) => {},
            Err(message) => {
                return Err(message);
            },
        }
        let flags = read_u8(bytes, i);
        let argument_bits_left = read_u8(bytes, i);
        let eeprom_command = read_u16(bytes, i);
        let pending_bits = read_u16(bytes, i);
        let latched_gyro_x = read_u16(bytes, i);
        let latched_gyro_y = read_u16(bytes, i);
        Ok(Self { flags, argument_bits_left, eeprom_command, pending_bits, latched_gyro_x, latched_gyro_y })
    }
}

/// The state of a Super Game Boy: where in the file its border and its
/// palettes lie.
#[derive(Debug)]
pub struct SgbBlock<'a> {
    pub border_tile_data: &'a [u8],  // 0x2000
    pub border_tilemap: &'a [u8],  // 0x800
    pub border_palettes: &'a [u8],  // 0x80
    pub active_colorization_palettes: &'a [u8],  // 0x20
    pub ram_colorization_palettes: &'a [u8],  // 0x1000
    pub attribute_map: &'a [u8],  // 0x168
    pub attribute_files: &'a [u8],  // 0xfd2
    pub multiplayer_status: u8,  // High nibble = player count (1, 2 or 4),
    // Low nibble = current player (with player 1 = 0)
}

impl<'a> SgbBlock<'a> {
    /// The outcome of reading the block: whether it is good, and where reading stops.
    pub open spec fn outcome(bytes: Seq<u8>, i: int) -> (Result<(), Seq<char>>, int) {
        ranged_block_at(bytes, i, TAG_SGB@, "SGB"@, 0x39, 5, 7)
    }

    /// Whether the block is the one that stands at an offset of the file.
    pub open spec fn is_at(&self, bytes: Seq<u8>, i: int) -> bool {
        &&& self.border_tile_data@ == range_bytes(bytes, i + 5)
        &&& self.border_tilemap@ == range_bytes(bytes, i + 13)
        &&& self.border_palettes@ == range_bytes(bytes, i + 21)
        &&& self.active_colorization_palettes@ == range_bytes(bytes, i + 29)
        &&& self.ram_colorization_palettes@ == range_bytes(bytes, i + 37)
        &&& self.attribute_map@ == range_bytes(bytes, i + 45)
        &&& self.attribute_files@ == range_bytes(bytes, i + 53)
        &&& self.multiplayer_status == bytes[i + 61]
    }

    /// Reads the block at the cursor and moves the cursor to where reading stops.
    pub fn read(bytes: &'a [u8], i: &mut usize) -> (r: Result<Self, String>)
        requires
            *old(i) <= bytes@.len(),
        ensures
            block_read(r, *final(i), Self::outcome(bytes@, *old(i) as int)),
            r matches Ok(block) ==> block.is_at(bytes@, *old(i) as int),
    {
        match read_header(bytes, i, &TAG_SGB, "SGB", 0x39, true) {
            Ok(_) => {},
            Err(message) => {
                return Err(message);
            },
        }
        let ranges = match read_memory_ranges(bytes, i, 7) {
            Ok(ranges) => ranges,
            Err(message) => {
                return Err(message);
            },
        };
        let multiplayer_status = read_u8(bytes, i);
        Ok(
            Self {
                border_tile_data: ranges[0],
                border_tilemap: ranges[1],
                border_palettes: ranges[2],
                active_colorization_palettes: ranges[3],
                ram_colorization_palettes: ranges[4],
                attribute_map: ranges[5],
                attribute_files: ranges[6],
                multiplayer_status: multiplayer_status,
            },
        )
    }
}

/// Bytes in decimal, separated by a comma and a blank.
pub open spec fn listed(bytes: Seq<u8>) -> Seq<char>
    decreases bytes.len(),
{
    if bytes.len() == 0 {
        Seq::<char>::empty()
    } else if bytes.len() == 1 {
        decimal(bytes[0] as nat)
    } else {
        listed(bytes.drop_last()) + ", "@ + decimal(bytes.last() as nat)
    }
}

/// The text that reports an identifier that names no block: the
/// identifier's bytes in decimal, in square brackets.
pub open spec fn identifier_error_text(identifier: Seq<u8>) -> Seq<char> {
    "Invalid identifier ["@ + listed(identifier) + "]"@
}

/// Renders the report of an identifier that names no block.
fn format_identifier_error(identifier: &[u8]) -> (s: String)
    ensures
        s@ == identifier_error_text(identifier@),
{
    let mut s = String::from_str("Invalid identifier [");
    let ghost head = s@;
    let mut k: usize = 0;
    while k < identifier.len()
        invariant
            k <= identifier@.len(),
            s@ == head + listed(identifier@.take(k as int)),
        decreases identifier@.len() - k,
    {
        proof {
            let next = identifier@.take(k + 1);
            assert(next.drop_last() =~= identifier@.take(k as int));
            assert(next.last() == identifier@[k as int]);
        }
        let ghost before = s@;
        if k > 0 {
            s.append(", ");
        }
        push_decimal(&mut s, identifier[k] as u64);
        proof {
            let next = identifier@.take(k + 1);
            if k == 0 {
                assert(listed(identifier@.take(0)) =~= Seq::<char>::empty());
                assert(s@ =~= head + listed(next));
            } else {
                assert(s@ =~= head + (listed(next.drop_last()) + ", "@ + decimal(next.last() as nat)));
            }
        }
        k += 1;
    }
    assert(identifier@.take(k as int) =~= identifier@);
    s.append("]");
    s
}

/// A save state: the blocks of a file.
#[derive(Debug)]
pub struct Bess<'a> {
    pub filename: String,
    pub name_block: Option<NameBlock>,
    pub info_block: InfoBlock,
    pub core_block: CoreBlock<'a>,
    pub xaom_block: Option<XaomBlock>,
    pub mbc_block: Option<MbcBlock>,
    pub rtc_block: Option<RtcBlock>,
    pub huc3_block: Option<Huc3Block>,
    pub tpp1_block: Option<Tpp1Block>,
    pub mbc7_block: Option<Mbc7Block>,
    pub sgb_block: Option<SgbBlock<'a>>,
}

/// Where a scan has found the last good block of each kind.
pub struct Found {
    pub name: Option<int>,
    pub info: Option<int>,
    pub core: Option<int>,
    pub xaom: Option<int>,
    pub mbc: Option<int>,
    pub rtc: Option<int>,
    pub huc3: Option<int>,
    pub tpp1: Option<int>,
    pub mbc7: Option<int>,
    pub sgb: Option<int>,
}

/// A scan that has found nothing yet.
pub open spec fn nothing_found() -> Found {
    Found {
        name: None,
        info: None,
        core: None,
        xaom: None,
        mbc: None,
        rtc: None,
        huc3: None,
        tpp1: None,
        mbc7: None,
        sgb: None,
    }
}

/// Whether the four bytes at an offset are an identifier.
pub open spec fn tag_at(bytes: Seq<u8>, i: int, tag: [u8; 4]) -> bool {
    bytes.subrange(i, i + 4) == tag@
}

/// How a scan goes on behind an optional block: from where the block's
/// reading stopped, with the block noted if it was good. A block whose
/// reading could not move on ends the scan without an end block.
pub open spec fn after_optional(
    bytes: Seq<u8>,
    i: int,
    outcome: (Result<(), Seq<char>>, int),
    found: Found,
    noted: Found,
) -> Result<Found, Seq<char>>
    decreases bytes.len() - i, 0int,
{
    if outcome.1 <= i || outcome.1 > bytes.len() {
        Err("Missing END block"@)
    } else {
        scan_from(
            bytes,
            outcome.1,
            if outcome.0 is Ok {
                noted
            } else {
                found
            },
        )
    }
}

/// How a scan goes on behind a mandatory block: the block must be good.
pub open spec fn after_mandatory(
    bytes: Seq<u8>,
    i: int,
    outcome: (Result<(), Seq<char>>, int),
    noted: Found,
) -> Result<Found, Seq<char>>
    decreases bytes.len() - i, 0int,
{
    match outcome.0 {
        Err(text) => Err(text),
        Ok(_) => if outcome.1 <= i || outcome.1 > bytes.len() {
            Err("Missing END block"@)
        } else {
            scan_from(bytes, outcome.1, noted)
        },
    }
}

/// What a scan of the blocks from an offset on finds. The scan ends well
/// at an end block. It fails at an identifier that names no block, at a
/// bad info or core block, and where no identifier is left before the
/// file's trailer. A bad block of another kind is passed over.
pub open spec fn scan_from(bytes: Seq<u8>, i: int, found: Found) -> Result<Found, Seq<char>>
    decreases bytes.len() - i, 1int,
{
    if !(0 <= i && i + 4 + TRAILER_LENGTH <= bytes.len()) {
        Err("Missing END block"@)
    } else if tag_at(bytes, i, TAG_NAME) {
        after_optional(bytes, i, NameBlock::outcome(bytes, i), found, Found { name: Some(i), ..found })
    } else if tag_at(bytes, i, TAG_INFO) {
        after_mandatory(bytes, i, InfoBlock::outcome(bytes, i), Found { info: Some(i), ..found })
    } else if tag_at(bytes, i, TAG_CORE) {
        after_mandatory(bytes, i, CoreBlock::outcome(bytes, i), Found { core: Some(i), ..found })
    } else if tag_at(bytes, i, TAG_XAOM) {
        after_optional(bytes, i, XaomBlock::outcome(bytes, i), found, Found { xaom: Some(i), ..found })
    } else if tag_at(bytes, i, TAG_MBC) {
        after_optional(bytes, i, MbcBlock::outcome(bytes, i), found, Found { mbc: Some(i), ..found })
    } else if tag_at(bytes, i, TAG_RTC) {
        after_optional(bytes, i, RtcBlock::outcome(bytes, i), found, Found { rtc: Some(i), ..found })
    } else if tag_at(bytes, i, TAG_HUC3) {
        after_optional(bytes, i, Huc3Block::outcome(bytes, i), found, Found { huc3: Some(i), ..found })
    } else if tag_at(bytes, i, TAG_TPP1) {
        after_optional(bytes, i, Tpp1Block::outcome(bytes, i), found, Found { tpp1: Some(i), ..found })
    } else if tag_at(bytes, i, TAG_MBC7) {
        after_optional(bytes, i, Mbc7Block::outcome(bytes, i), found, Found { mbc7: Some(i), ..found })
    } else if tag_at(bytes, i, TAG_SGB) {
        after_optional(bytes, i, SgbBlock::outcome(bytes, i), found, Found { sgb: Some(i), ..found })
    } else if tag_at(bytes, i, TAG_END) {
        Ok(found)
    } else {
        Err(identifier_error_text(bytes.subrange(i, i + 4)))
    }
}

/// What the blocks of a file are: the file must be at least 8 bytes long
/// and end in the marker `BESS`; the byte 8 from the end says where the
/// first block starts; the scan from there must end well and find an info
/// block and a core block.
pub open spec fn blocks_of(bytes: Seq<u8>) -> Result<Found, Seq<char>> {
    if bytes.len() < 8 {
        Err("File too short"@)
    } else if !tag_at(bytes, bytes.len() - 4, TAG_BESS) {
        Err("Missing 'BESS' string at end of file"@)
    } else {
        match scan_from(bytes, bytes[bytes.len() - 8] as int, nothing_found()) {
            Err(text) => Err(text),
            Ok(found) => if found.info is None {
                Err("Missing INFO block"@)
            } else if found.core is None {
                Err("Missing CORE block"@)
            } else {
                Ok(found)
            },
        }
    }
}

/// What a scan reports behind an optional block: the block's complaint if
/// it was bad, then what the scan reports from where the block's reading
/// stopped.
pub open spec fn complaints_after_optional(bytes: Seq<u8>, i: int, outcome: (Result<(), Seq<char>>, int)) -> Seq<
    Seq<char>,
>
    decreases bytes.len() - i, 0int,
{
    let own = match outcome.0 {
        Err(text) => seq![text],
        Ok(_) => Seq::<Seq<char>>::empty(),
    };
    if outcome.1 <= i || outcome.1 > bytes.len() {
        own
    } else {
        own + complaints_from(bytes, outcome.1)
    }
}

/// What a scan reports behind a mandatory block: nothing where the block
/// is bad, for its complaint fails the scan.
pub open spec fn complaints_after_mandatory(bytes: Seq<u8>, i: int, outcome: (Result<(), Seq<char>>, int)) -> Seq<
    Seq<char>,
>
    decreases bytes.len() - i, 0int,
{
    if outcome.0 is Err || outcome.1 <= i || outcome.1 > bytes.len() {
        Seq::<Seq<char>>::empty()
    } else {
        complaints_from(bytes, outcome.1)
    }
}

/// The complaints of the bad optional blocks that a scan from an offset on
/// passes over, in the file's order, up to where the scan ends.
pub open spec fn complaints_from(bytes: Seq<u8>, i: int) -> Seq<Seq<char>>
    decreases bytes.len() - i, 1int,
{
    if !(0 <= i && i + 4 + TRAILER_LENGTH <= bytes.len()) {
        Seq::<Seq<char>>::empty()
    } else if tag_at(bytes, i, TAG_NAME) {
        complaints_after_optional(bytes, i, NameBlock::outcome(bytes, i))
    } else if tag_at(bytes, i, TAG_INFO) {
        complaints_after_mandatory(bytes, i, InfoBlock::outcome(bytes, i))
    } else if tag_at(bytes, i, TAG_CORE) {
        complaints_after_mandatory(bytes, i, CoreBlock::outcome(bytes, i))
    } else if tag_at(bytes, i, TAG_XAOM) {
        complaints_after_optional(bytes, i, XaomBlock::outcome(bytes, i))
    } else if tag_at(bytes, i, TAG_MBC) {
        complaints_after_optional(bytes, i, MbcBlock::outcome(bytes, i))
    } else if tag_at(bytes, i, TAG_RTC) {
        complaints_after_optional(bytes, i, RtcBlock::outcome(bytes, i))
    } else if tag_at(bytes, i, TAG_HUC3) {
        complaints_after_optional(bytes, i, Huc3Block::outcome(bytes, i))
    } else if tag_at(bytes, i, TAG_TPP1) {
        complaints_after_optional(bytes, i, Tpp1Block::outcome(bytes, i))
    } else if tag_at(bytes, i, TAG_MBC7) {
        complaints_after_optional(bytes, i, Mbc7Block::outcome(bytes, i))
    } else if tag_at(bytes, i, TAG_SGB) {
        complaints_after_optional(bytes, i, SgbBlock::outcome(bytes, i))
    } else {
        Seq::<Seq<char>>::empty()
    }
}

/// The complaints of the bad optional blocks of a file, which reading the
/// file passes over: none where the file is too short or lacks its
/// marker.
pub open spec fn complaints_of(bytes: Seq<u8>) -> Seq<Seq<char>> {
    if bytes.len() < 8 || !tag_at(bytes, bytes.len() - 4, TAG_BESS) {
        Seq::<Seq<char>>::empty()
    } else {
        complaints_from(bytes, bytes[bytes.len() - 8] as int)
    }
}

/// What a list of texts holds.
pub open spec fn texts_of(texts: Seq<String>) -> Seq<Seq<char>> {
    texts.map_values(|text: String| text@)
}

/// Tells whether the four bytes at an offset are an identifier.
fn has_tag(bytes: &[u8], i: usize, tag: &[u8; 4]) -> (b: bool)
    requires
        i + 4 <= bytes@.len(),
    ensures
        b == tag_at(bytes@, i as int, *tag),
{
    if bytes[i] == tag[0] && bytes[i + 1] == tag[1] && bytes[i + 2] == tag[2] && bytes[i + 3] == tag[3] {
        assert(bytes@.subrange(i as int, i + 4) =~= tag@);
        true
    } else {
        proof {
            let found = bytes@.subrange(i as int, i + 4);
            assert(found[0] == bytes@[i as int] && found[1] == bytes@[i + 1] && found[2] == bytes@[i + 2]
                && found[3] == bytes@[i + 3]);
        }
        false
    }
}

impl<'a> Bess<'a> {
    /// Whether the save state holds the blocks that a scan found: each
    /// block that was found, as it stands in the file, and no other.
    pub open spec fn holds(&self, bytes: Seq<u8>, found: Found) -> bool {
        &&& found.info matches Some(p) && self.info_block.is_at(bytes, p)
        &&& found.core matches Some(p) && self.core_block.is_at(bytes, p)
        &&& match found.name {
            Some(p) => self.name_block matches Some(block) && block.is_at(bytes, p),
            None => self.name_block is None,
        }
        &&& match found.xaom {
            Some(p) => self.xaom_block matches Some(block) && block.is_at(bytes, p),
            None => self.xaom_block is None,
        }
        &&& match found.mbc {
            Some(p) => self.mbc_block matches Some(block) && block.is_at(bytes, p),
            None => self.mbc_block is None,
        }
        &&& match found.rtc {
            Some(p) => self.rtc_block matches Some(block) && block.is_at(bytes, p),
            None => self.rtc_block is None,
        }
        &&& match found.huc3 {
            Some(p) => self.huc3_block matches Some(block) && block.is_at(bytes, p),
            None => self.huc3_block is None,
        }
        &&& match found.tpp1 {
            Some(p) => self.tpp1_block matches Some(block) && block.is_at(bytes, p),
            None => self.tpp1_block is None,
        }
        &&& match found.mbc7 {
            Some(p) => self.mbc7_block matches Some(block) && block.is_at(bytes, p),
            None => self.mbc7_block is None,
        }
        &&& match found.sgb {
            Some(p) => self.sgb_block matches Some(block) && block.is_at(bytes, p),
            None => self.sgb_block is None,
        }
    }

    /// Reads the save state that a file holds.
    #[verifier::loop_isolation(false)]
    pub fn new(bytes: &'a [u8], filename: &str) -> (r: Result<Bess<'a>, String>)
        ensures
            match blocks_of(bytes@) {
                Ok(found) => r matches Ok(bess) && bess.holds(bytes@, found) && bess.filename@ == filename@,
                Err(text) => r matches Err(message) && message@ == text,
            },
    {
        if bytes.len() < 8 {
            return Err(String::from_str("File too short"));
        }
        let first_block_offset = bytes[bytes.len() - 8];
        if !has_tag(bytes, bytes.len() - 4, &TAG_BESS) {
            return Err(String::from_str("Missing 'BESS' string at end of file"));
        }
        let mut name_block: Option<NameBlock> = None;
        let mut info_block: Option<InfoBlock> = None;
        let mut core_block: Option<CoreBlock> = None;
        let mut xaom_block: Option<XaomBlock> = None;
        let mut mbc_block: Option<MbcBlock> = None;
        let mut rtc_block: Option<RtcBlock> = None;
        let mut huc3_block: Option<Huc3Block> = None;
        let mut tpp1_block: Option<Tpp1Block> = None;
        let mut mbc7_block: Option<Mbc7Block> = None;
        let mut sgb_block: Option<SgbBlock> = None;
        let mut has_end_block = false;
        let ghost mut found = nothing_found();
        let ghost first = first_block_offset as int;

        let mut i = first_block_offset as usize;
        let mut stuck = false;
        while !has_end_block && !stuck && i < bytes.len() && bytes.len() - i >= 4 + TRAILER_LENGTH
            invariant
                has_end_block ==> scan_from(bytes@, first, nothing_found()) == Ok::<Found, Seq<char>>(found),
                stuck ==> !has_end_block && scan_from(bytes@, first, nothing_found()) == Err::<Found, Seq<char>>(
                    "Missing END block"@,
                ),
                !has_end_block && !stuck ==> scan_from(bytes@, first, nothing_found()) == scan_from(
                    bytes@,
                    i as int,
                    found,
                ),
                found.info matches Some(p) ==> info_block matches Some(block) && block.is_at(bytes@, p),
                found.info is None ==> info_block is None,
                found.core matches Some(p) ==> core_block matches Some(block) && block.is_at(bytes@, p),
                found.core is None ==> core_block is None,
                found.name matches Some(p) ==> name_block matches Some(block) && block.is_at(bytes@, p),
                found.name is None ==> name_block is None,
                found.xaom matches Some(p) ==> xaom_block matches Some(block) && block.is_at(bytes@, p),
                found.xaom is None ==> xaom_block is None,
                found.mbc matches Some(p) ==> mbc_block matches Some(block) && block.is_at(bytes@, p),
                found.mbc is None ==> mbc_block is None,
                found.rtc matches Some(p) ==> rtc_block matches Some(block) && block.is_at(bytes@, p),
                found.rtc is None ==> rtc_block is None,
                found.huc3 matches Some(p) ==> huc3_block matches Some(block) && block.is_at(bytes@, p),
                found.huc3 is None ==> huc3_block is None,
                found.tpp1 matches Some(p) ==> tpp1_block matches Some(block) && block.is_at(bytes@, p),
                found.tpp1 is None ==> tpp1_block is None,
                found.mbc7 matches Some(p) ==> mbc7_block matches Some(block) && block.is_at(bytes@, p),
                found.mbc7 is None ==> mbc7_block is None,
                found.sgb matches Some(p) ==> sgb_block matches Some(block) && block.is_at(bytes@, p),
                found.sgb is None ==> sgb_block is None,
            decreases (if has_end_block || stuck { 0 } else { 1 + bytes@.len() - i }),
        {
            let at = i;
            if has_tag(bytes, at, &TAG_NAME) {
                match NameBlock::read(bytes, &mut i) {
                    Err(_) => {},
                    Ok(block) => {
                        name_block = Some(block);
                        proof {
                            found = Found { name: Some(at as int), ..found };
                        }
                    },
                }
            } else if has_tag(bytes, at, &TAG_INFO) {
                match InfoBlock::read(bytes, &mut i) {
                    Err(err) => {
                        return Err(err);
                    },
                    Ok(block) => {
                        info_block = Some(block);
                        proof {
                            found = Found { info: Some(at as int), ..found };
                        }
                    },
                }
            } else if has_tag(bytes, at, &TAG_CORE) {
                match CoreBlock::read(bytes, &mut i) {
                    Err(err) => {
                        return Err(err);
                    },
                    Ok(block) => {
                        core_block = Some(block);
                        proof {
                            found = Found { core: Some(at as int), ..found };
                        }
                    },
                }
            } else if has_tag(bytes, at, &TAG_XAOM) {
                match XaomBlock::read(bytes, &mut i) {
                    Err(_) => {},
                    Ok(block) => {
                        xaom_block = Some(block);
                        proof {
                            found = Found { xaom: Some(at as int), ..found };
                        }
                    },
                }
            } else if has_tag(bytes, at, &TAG_MBC) {
                match MbcBlock::read(bytes, &mut i) {
                    Err(_) => {},
                    Ok(block) => {
                        mbc_block = Some(block);
                        proof {
                            found = Found { mbc: Some(at as int), ..found };
                        }
                    },
                }
            } else if has_tag(bytes, at, &TAG_RTC) {
                match RtcBlock::read(bytes, &mut i) {
                    Err(_) => {},
                    Ok(block) => {
                        rtc_block = Some(block);
                        proof {
                            found = Found { rtc: Some(at as int), ..found };
                        }
                    },
                }
            } else if has_tag(bytes, at, &TAG_HUC3) {
                match Huc3Block::read(bytes, &mut i) {
                    Err(_) => {},
                    Ok(block) => {
                        huc3_block = Some(block);
                        proof {
                            found = Found { huc3: Some(at as int), ..found };
                        }
                    },
                }
            } else if has_tag(bytes, at, &TAG_TPP1) {
                match Tpp1Block::read(bytes, &mut i) {
                    Err(_) => {},
                    Ok(block) => {
                        tpp1_block = Some(block);
                        proof {
                            found = Found { tpp1: Some(at as int), ..found };
                        }
                    },
                }
            } else if has_tag(bytes, at, &TAG_MBC7) {
                match Mbc7Block::read(bytes, &mut i) {
                    Err(_) => {},
                    Ok(block) => {
                        mbc7_block = Some(block);
                        proof {
                            found = Found { mbc7: Some(at as int), ..found };
                        }
                    },
                }
            } else if has_tag(bytes, at, &TAG_SGB) {
                match SgbBlock::read(bytes, &mut i) {
                    Err(_) => {},
                    Ok(block) => {
                        sgb_block = Some(block);
                        proof {
                            found = Found { sgb: Some(at as int), ..found };
                        }
                    },
                }
            } else if has_tag(bytes, at, &TAG_END) {
                has_end_block = true;
            } else {
                return Err(format_identifier_error(slice_subrange(bytes, at, at + 4)));
            }
            if !has_end_block && (i <= at || i > bytes.len()) {
                // A block that cannot be passed over ends the scan.
                stuck = true;
            }
        }

        if !has_end_block {
            return Err(String::from_str("Missing END block"));
        }
        let info_block = match info_block {
            Some(block) => block,
            None => {
                return Err(String::from_str("Missing INFO block"));
            },
        };
        let core_block = match core_block {
            Some(block) => block,
            None => {
                return Err(String::from_str("Missing CORE block"));
            },
        };

        Ok(
            Self {
                filename: String::from_str(filename),
                name_block,
                info_block,
                core_block,
                xaom_block,
                mbc_block,
                rtc_block,
                huc3_block,
                tpp1_block,
                mbc7_block,
                sgb_block,
            },
        )
    }
}

/// Notes the complaint of an optional block that could not be read.
fn note<T>(read: Result<T, String>, complaints: &mut Vec<String>) -> (good: bool)
    ensures
        good == (read is Ok),
        texts_of(final(complaints)@) == texts_of(old(complaints)@) + (match read {
            Err(message) => seq![message@],
            Ok(_) => Seq::<Seq<char>>::empty(),
        }),
{
    match read {
        Err(message) => {
            complaints.push(message);
            assert(texts_of(complaints@) =~= texts_of(old(complaints)@) + seq![message@]);
            false
        },
        Ok(_) => {
            assert(texts_of(complaints@) =~= texts_of(old(complaints)@) + Seq::<Seq<char>>::empty());
            true
        },
    }
}

/// Lists the complaints of the bad optional blocks of a file. Reading the
/// file passes such blocks over; this tells which they were and why.
#[verifier::loop_isolation(false)]
pub fn skipped_blocks(bytes: &[u8]) -> (complaints: Vec<String>)
    ensures
        texts_of(complaints@) == complaints_of(bytes@),
{
    let mut complaints: Vec<String> = Vec::new();
    assert(texts_of(complaints@) =~= Seq::<Seq<char>>::empty());
    if bytes.len() < 8 {
        return complaints;
    }
    if !has_tag(bytes, bytes.len() - 4, &TAG_BESS) {
        return complaints;
    }
    let ghost first = bytes[bytes.len() - 8] as int;
    let mut i = bytes[bytes.len() - 8] as usize;
    let mut done = false;
    while !done && i < bytes.len() && bytes.len() - i >= 4 + TRAILER_LENGTH
        invariant
            done ==> complaints_from(bytes@, first) == texts_of(complaints@),
            !done ==> complaints_from(bytes@, first) == texts_of(complaints@) + complaints_from(bytes@, i as int),
        decreases (if done { 0 } else { 1 + bytes@.len() - i }),
    {
        let at = i;
        let ghost before = texts_of(complaints@);
        let ghost rest = complaints_from(bytes@, at as int);
        if has_tag(bytes, at, &TAG_NAME) {
            note(NameBlock::read(bytes, &mut i), &mut complaints);
        } else if has_tag(bytes, at, &TAG_INFO) {
            done = InfoBlock::read(bytes, &mut i).is_err();
        } else if has_tag(bytes, at, &TAG_CORE) {
            done = CoreBlock::read(bytes, &mut i).is_err();
        } else if has_tag(bytes, at, &TAG_XAOM) {
            note(XaomBlock::read(bytes, &mut i), &mut complaints);
        } else if has_tag(bytes, at, &TAG_MBC) {
            note(MbcBlock::read(bytes, &mut i), &mut complaints);
        } else if has_tag(bytes, at, &TAG_RTC) {
            note(RtcBlock::read(bytes, &mut i), &mut complaints);
        } else if has_tag(bytes, at, &TAG_HUC3) {
            note(Huc3Block::read(bytes, &mut i), &mut complaints);
        } else if has_tag(bytes, at, &TAG_TPP1) {
            note(Tpp1Block::read(bytes, &mut i), &mut complaints);
        } else if has_tag(bytes, at, &TAG_MBC7) {
            note(Mbc7Block::read(bytes, &mut i), &mut complaints);
        } else if has_tag(bytes, at, &TAG_SGB) {
            note(SgbBlock::read(bytes, &mut i), &mut complaints);
        } else {
            done = true;
        }
        if !done && (i <= at || i > bytes.len()) {
            // A block that cannot be passed over ends the scan.
            done = true;
        }
        proof {
            let own = texts_of(complaints@).subrange(before.len() as int, texts_of(complaints@).len() as int);
            assert(texts_of(complaints@) =~= before + own);
            if done {
                assert(rest =~= own);
                assert(before + rest =~= texts_of(complaints@));
            } else {
                assert(rest =~= own + complaints_from(bytes@, i as int));
                assert(before + rest =~= texts_of(complaints@) + complaints_from(bytes@, i as int));
            }
        }
    }
    assert(texts_of(complaints@) + Seq::<Seq<char>>::empty() =~= texts_of(complaints@));
    complaints
}

} // verus!
