//! A random-access cursor over an in-memory byte stream, and the fixed-width
//! reads that the element decoder is built from.
use vstd::prelude::*;
use vstd::utf8::{decode_utf8, valid_utf8};

use crate::errors::DecodeError;
use crate::transfer_syntax::EndianEncoding;

verus! {

/// The 16-bit unsigned integer stored at `p` in the given byte order.
pub open spec fn u16_at(bytes: Seq<u8>, p: int, order: EndianEncoding) -> u16 {
    match order {
        EndianEncoding::LittleEndian => (bytes[p] + 256 * bytes[p + 1]) as u16,
        EndianEncoding::BigEndian => (256 * bytes[p] + bytes[p + 1]) as u16,
    }
}

/// The 32-bit unsigned integer stored at `p` in the given byte order.
pub open spec fn u32_at(bytes: Seq<u8>, p: int, order: EndianEncoding) -> u32 {
    match order {
        EndianEncoding::LittleEndian => (bytes[p] + 0x100 * bytes[p + 1] + 0x1_0000 * bytes[p + 2]
            + 0x100_0000 * bytes[p + 3]) as u32,
        EndianEncoding::BigEndian => (0x100_0000 * bytes[p] + 0x1_0000 * bytes[p + 1] + 0x100
            * bytes[p + 2] + bytes[p + 3]) as u32,
    }
}

/// The 64-bit unsigned integer stored at `p` in the given byte order.
pub open spec fn u64_at(bytes: Seq<u8>, p: int, order: EndianEncoding) -> u64 {
    match order {
        EndianEncoding::LittleEndian => (u32_at(bytes, p, order) + 0x1_0000_0000 * u32_at(
            bytes,
            p + 4,
            order,
        )) as u64,
        EndianEncoding::BigEndian => (0x1_0000_0000 * u32_at(bytes, p, order) + u32_at(
            bytes,
            p + 4,
            order,
        )) as u64,
    }
}

/// The two's-complement reading of a 16-bit pattern.
pub open spec fn i16_of(v: u16) -> i16 {
    if v < 0x8000 {
        v as i16
    } else {
        (v - 0x1_0000) as i16
    }
}

/// The two's-complement reading of a 32-bit pattern.
pub open spec fn i32_of(v: u32) -> i32 {
    if v < 0x8000_0000 {
        v as i32
    } else {
        (v - 0x1_0000_0000) as i32
    }
}

/// What a cursor-reading step returned, against the specification function of
/// that step: on success the same value and the cursor just past it, on
/// failure the same error; the stream itself never changes.
pub open spec fn read_agrees<T: View>(
    r: Result<T, DecodeError>,
    expected: Result<(T::V, int), DecodeError>,
    before: ByteCursor,
    after: ByteCursor,
) -> bool {
    &&& after.contents() == before.contents()
    &&& match r {
        Ok(v) => expected == Ok::<(T::V, int), DecodeError>((v@, after.offset())),
        Err(e) => expected == Err::<(T::V, int), DecodeError>(e),
    }
}

/// Relies on `String::from_utf8`: it succeeds exactly on valid UTF-8, and the
/// string then holds the characters that the bytes encode.
#[verifier::external_body]
pub(crate) fn utf8_string(bytes: Vec<u8>) -> (r: Option<String>)
    ensures
        r is Some <==> valid_utf8(bytes@),
        r matches Some(s) ==> s@ == decode_utf8(bytes@),
{
    String::from_utf8(bytes).ok()
}

/// The offset of a cursor is never negative.
pub broadcast proof fn lemma_offset_nonnegative(c: ByteCursor)
    ensures
        #[trigger] c.offset() >= 0,
{
}

/// A byte stream with a current offset.
pub struct ByteCursor {
    data: Vec<u8>,
    position: usize,
}

impl ByteCursor {
    /// The whole stream.
    pub closed spec fn contents(&self) -> Seq<u8> {
        self.data@
    }

    /// The offset of the next byte to read.
    pub closed spec fn offset(&self) -> int {
        self.position as int
    }

    /// Whether `n` more bytes can be read from the current offset.
    pub open spec fn has(&self, n: int) -> bool {
        self.offset() + n <= self.contents().len()
    }

    /// The byte `k` places past the current offset.
    pub open spec fn ahead(&self, k: int) -> u8 {
        self.contents()[self.offset() + k]
    }

    /// The `n` bytes that start at the current offset.
    pub open spec fn window(&self, n: int) -> Seq<u8> {
        self.contents().subrange(self.offset(), self.offset() + n)
    }

    /// `self` after reading `n` bytes: same stream, offset moved by `n`.
    pub open spec fn advanced(&self, old_cursor: &ByteCursor, n: int) -> bool {
        &&& self.contents() == old_cursor.contents()
        &&& self.offset() == old_cursor.offset() + n
    }

    /// A cursor at the start of `data`.
    pub fn new(data: Vec<u8>) -> (r: ByteCursor)
        ensures
            r.contents() == data@,
            r.offset() == 0,
    {
        ByteCursor { data, position: 0 }
    }

    /// Length of the whole stream.
    pub fn len(&self) -> (r: usize)
        ensures
            r == self.contents().len(),
    {
        self.data.len()
    }

    /// Current offset.
    pub fn pos(&self) -> (r: usize)
        ensures
            r == self.offset(),
    {
        self.position
    }

    /// Moves to an absolute offset within the stream.
    pub fn seek(&mut self, position: usize)
        requires
            position <= old(self).contents().len(),
        ensures
            final(self).contents() == old(self).contents(),
            final(self).offset() == position,
    {
        self.position = position;
    }

    /// Byte `i` of the stream.
    fn byte(&self, i: usize) -> (r: u8)
        requires
            i < self.contents().len(),
        ensures
            r == self.contents()[i as int],
    {
        self.data[i]
    }
}

/// Reads the next two bytes as they stand.
pub fn read_2(reader: &mut ByteCursor) -> (r: Result<[u8; 2], DecodeError>)
    ensures
        match r {
            Ok(b) => {
                &&& old(reader).has(2)
                &&& b[0] == old(reader).ahead(0)
                &&& b[1] == old(reader).ahead(1)
                &&& final(reader).advanced(old(reader), 2)
            },
            Err(e) => {
                &&& !old(reader).has(2)
                &&& e == DecodeError::UnexpectedEnd
                &&& final(reader).advanced(old(reader), 0)
            },
        },
{
    let p = reader.pos();
    if p > reader.len() || reader.len() - p < 2 {
        return Err(DecodeError::UnexpectedEnd);
    }
    let b = [reader.byte(p), reader.byte(p + 1)];
    reader.seek(p + 2);
    Ok(b)
}

/// The 16-bit integer at `p`, without moving the cursor.
fn u16_from(reader: &ByteCursor, p: usize, order: EndianEncoding) -> (r: u16)
    requires
        p + 2 <= reader.contents().len(),
    ensures
        r == u16_at(reader.contents(), p as int, order),
{
    let _ = reader.len();
    let b0 = reader.byte(p) as u16;
    let b1 = reader.byte(p + 1) as u16;
    match order {
        EndianEncoding::LittleEndian => b0 + b1 * 0x100,
        EndianEncoding::BigEndian => b0 * 0x100 + b1,
    }
}

/// The 32-bit integer at `p`, without moving the cursor.
fn u32_from(reader: &ByteCursor, p: usize, order: EndianEncoding) -> (r: u32)
    requires
        p + 4 <= reader.contents().len(),
    ensures
        r == u32_at(reader.contents(), p as int, order),
{
    let _ = reader.len();
    let b0 = reader.byte(p) as u32;
    let b1 = reader.byte(p + 1) as u32;
    let b2 = reader.byte(p + 2) as u32;
    let b3 = reader.byte(p + 3) as u32;
    match order {
        EndianEncoding::LittleEndian => b0 + b1 * 0x100 + b2 * 0x1_0000 + b3 * 0x100_0000,
        EndianEncoding::BigEndian => b0 * 0x100_0000 + b1 * 0x1_0000 + b2 * 0x100 + b3,
    }
}

/// Whether `n` bytes remain at the cursor, computed without overflow.
pub fn available(reader: &ByteCursor, n: usize) -> (r: bool)
    ensures
        r == reader.has(n as int),
        reader.contents().len() <= usize::MAX,
{
    let p = reader.pos();
    let len = reader.len();
    p <= len && len - p >= n
}

/// Reads a 16-bit unsigned integer in the given byte order.
pub fn read_u16(reader: &mut ByteCursor, order: EndianEncoding) -> (r: Result<u16, DecodeError>)
    ensures
        match r {
            Ok(v) => {
                &&& old(reader).has(2)
                &&& v == u16_at(old(reader).contents(), old(reader).offset(), order)
                &&& final(reader).advanced(old(reader), 2)
            },
            Err(e) => {
                &&& !old(reader).has(2)
                &&& e == DecodeError::UnexpectedEnd
                &&& final(reader).advanced(old(reader), 0)
            },
        },
{
    if !available(reader, 2) {
        return Err(DecodeError::UnexpectedEnd);
    }
    let p = reader.pos();
    let v = u16_from(reader, p, order);
    reader.seek(p + 2);
    Ok(v)
}

/// Reads a 16-bit two's-complement integer in the given byte order.
pub fn read_i16(reader: &mut ByteCursor, order: EndianEncoding) -> (r: Result<i16, DecodeError>)
    ensures
        match r {
            Ok(v) => {
                &&& old(reader).has(2)
                &&& v == i16_of(u16_at(old(reader).contents(), old(reader).offset(), order))
                &&& final(reader).advanced(old(reader), 2)
            },
            Err(e) => {
                &&& !old(reader).has(2)
                &&& e == DecodeError::UnexpectedEnd
                &&& final(reader).advanced(old(reader), 0)
            },
        },
{
    let v = read_u16(reader, order)?;
    if v < 0x8000 {
        Ok(v as i16)
    } else {
        Ok((v as i32 - 0x1_0000) as i16)
    }
}

/// Reads a 32-bit unsigned integer in the given byte order.
pub fn read_u32(reader: &mut ByteCursor, order: EndianEncoding) -> (r: Result<u32, DecodeError>)
    ensures
        match r {
            Ok(v) => {
                &&& old(reader).has(4)
                &&& v == u32_at(old(reader).contents(), old(reader).offset(), order)
                &&& final(reader).advanced(old(reader), 4)
            },
            Err(e) => {
                &&& !old(reader).has(4)
                &&& e == DecodeError::UnexpectedEnd
                &&& final(reader).advanced(old(reader), 0)
            },
        },
{
    if !available(reader, 4) {
        return Err(DecodeError::UnexpectedEnd);
    }
    let p = reader.pos();
    let v = u32_from(reader, p, order);
    reader.seek(p + 4);
    Ok(v)
}

/// Reads a 32-bit two's-complement integer in the given byte order.
pub fn read_i32(reader: &mut ByteCursor, order: EndianEncoding) -> (r: Result<i32, DecodeError>)
    ensures
        match r {
            Ok(v) => {
                &&& old(reader).has(4)
                &&& v == i32_of(u32_at(old(reader).contents(), old(reader).offset(), order))
                &&& final(reader).advanced(old(reader), 4)
            },
            Err(e) => {
                &&& !old(reader).has(4)
                &&& e == DecodeError::UnexpectedEnd
                &&& final(reader).advanced(old(reader), 0)
            },
        },
{
    let v = read_u32(reader, order)?;
    if v < 0x8000_0000 {
        Ok(v as i32)
    } else {
        Ok((v as i64 - 0x1_0000_0000) as i32)
    }
}

/// Reads a 64-bit unsigned integer in the given byte order.
pub fn read_u64(reader: &mut ByteCursor, order: EndianEncoding) -> (r: Result<u64, DecodeError>)
    ensures
        match r {
            Ok(v) => {
                &&& old(reader).has(8)
                &&& v == u64_at(old(reader).contents(), old(reader).offset(), order)
                &&& final(reader).advanced(old(reader), 8)
            },
            Err(e) => {
                &&& !old(reader).has(8)
                &&& e == DecodeError::UnexpectedEnd
                &&& final(reader).advanced(old(reader), 0)
            },
        },
{
    if !available(reader, 8) {
        return Err(DecodeError::UnexpectedEnd);
    }
    let p = reader.pos();
    let first = u32_from(reader, p, order) as u64;
    let second = u32_from(reader, p + 4, order) as u64;
    reader.seek(p + 8);
    match order {
        EndianEncoding::LittleEndian => Ok(first + second * 0x1_0000_0000),
        EndianEncoding::BigEndian => Ok(first * 0x1_0000_0000 + second),
    }
}

/// Reads the group number of the next element without consuming it: the
/// 16-bit little-endian integer in the next two bytes.
pub fn read_rewind_u16(reader: &mut ByteCursor) -> (r: Result<u16, DecodeError>)
    ensures
        final(reader).advanced(old(reader), 0),
        match r {
            Ok(v) => old(reader).has(2) && v == u16_at(
                old(reader).contents(),
                old(reader).offset(),
                EndianEncoding::LittleEndian,
            ),
            Err(e) => !old(reader).has(2) && e == DecodeError::UnexpectedEnd,
        },
{
    if !available(reader, 2) {
        return Err(DecodeError::UnexpectedEnd);
    }
    let p = reader.pos();
    Ok(u16_from(reader, p, EndianEncoding::LittleEndian))
}

/// Reads the next `length` bytes verbatim.
pub fn read_bytes(reader: &mut ByteCursor, length: usize) -> (r: Result<Vec<u8>, DecodeError>)
    ensures
        match r {
            Ok(v) => {
                &&& old(reader).has(length as int)
                &&& v@ == old(reader).window(length as int)
                &&& final(reader).advanced(old(reader), length as int)
            },
            Err(e) => {
                &&& !old(reader).has(length as int)
                &&& e == DecodeError::UnexpectedEnd
                &&& final(reader).advanced(old(reader), 0)
            },
        },
{
    if !available(reader, length) {
        return Err(DecodeError::UnexpectedEnd);
    }
    let p = reader.pos();
    let mut v: Vec<u8> = Vec::with_capacity(length);
    let mut i: usize = 0;
    while i < length
        invariant
            p + length <= reader.contents().len() <= usize::MAX,
            i <= length,
            v@ == reader.contents().subrange(p as int, p + i),
        decreases length - i,
    {
        v.push(reader.byte(p + i));
        i = i + 1;
    }
    reader.seek(p + length);
    Ok(v)
}

/// Reads the next `length` bytes as UTF-8 text.
pub fn read_str(reader: &mut ByteCursor, length: usize) -> (r: Result<String, DecodeError>)
    ensures
        match r {
            Ok(s) => {
                &&& old(reader).has(length as int)
                &&& valid_utf8(old(reader).window(length as int))
                &&& s@ == decode_utf8(old(reader).window(length as int))
                &&& final(reader).advanced(old(reader), length as int)
            },
            Err(e) => {
                &&& final(reader).advanced(old(reader), 0)
                &&& !old(reader).has(length as int) ==> e == DecodeError::UnexpectedEnd
                &&& old(reader).has(length as int) ==> e == DecodeError::InvalidText && !valid_utf8(
                    old(reader).window(length as int),
                )
            },
        },
{
    let p = reader.pos();
    let bytes = match read_bytes(reader, length) {
        Ok(bytes) => bytes,
        Err(e) => return Err(e),
    };
    match utf8_string(bytes) {
        Some(s) => Ok(s),
        None => {
            reader.seek(p);
            Err(DecodeError::InvalidText)
        },
    }
}

} // verus!
