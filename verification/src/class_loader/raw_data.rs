//! Big-endian reads from a byte buffer with a cursor.
//!
//! The model of the buffer is the pair of its byte sequence and a position.
//! Each read is described by a spec function from that pair to either the
//! value read together with the position behind it, or the error.

use crate::error::JvmError;
use vstd::prelude::*;
use vstd::slice::slice_subrange;
use vstd::slice::slice_to_vec;
use vstd::utf8::decode_utf8;
use vstd::utf8::valid_utf8;

verus! {

/// Whether `n` bytes can be read from `bytes` at position `pos`.
pub open spec fn can_read(bytes: Seq<u8>, pos: int, n: int) -> bool {
    0 <= pos && 0 <= n && pos + n <= bytes.len()
}

/// The big-endian number held by the two bytes at `pos`.
pub open spec fn be_u16(bytes: Seq<u8>, pos: int) -> int {
    bytes[pos] as int * 0x100 + bytes[pos + 1] as int
}

/// The big-endian number held by the four bytes at `pos`.
pub open spec fn be_u32(bytes: Seq<u8>, pos: int) -> int {
    be_u16(bytes, pos) * 0x1_0000 + be_u16(bytes, pos + 2)
}

/// The big-endian number held by the eight bytes at `pos`.
pub open spec fn be_u64(bytes: Seq<u8>, pos: int) -> int {
    be_u32(bytes, pos) * 0x1_0000_0000 + be_u32(bytes, pos + 4)
}

/// Reading one byte at `pos`.
pub open spec fn spec_read_u8(bytes: Seq<u8>, pos: int) -> Result<(u8, int), JvmError> {
    if can_read(bytes, pos, 1) {
        Ok((bytes[pos], pos + 1))
    } else {
        Err(JvmError::BoundedRead)
    }
}

/// Reading a big-endian 16-bit number at `pos`.
pub open spec fn spec_read_u16(bytes: Seq<u8>, pos: int) -> Result<(u16, int), JvmError> {
    if can_read(bytes, pos, 2) {
        Ok((be_u16(bytes, pos) as u16, pos + 2))
    } else {
        Err(JvmError::BoundedRead)
    }
}

/// Reading a big-endian 32-bit number at `pos`.
pub open spec fn spec_read_u32(bytes: Seq<u8>, pos: int) -> Result<(u32, int), JvmError> {
    if can_read(bytes, pos, 4) {
        Ok((be_u32(bytes, pos) as u32, pos + 4))
    } else {
        Err(JvmError::BoundedRead)
    }
}

/// Reading a big-endian 64-bit number at `pos`.
pub open spec fn spec_read_u64(bytes: Seq<u8>, pos: int) -> Result<(u64, int), JvmError> {
    if can_read(bytes, pos, 8) {
        Ok((be_u64(bytes, pos) as u64, pos + 8))
    } else {
        Err(JvmError::BoundedRead)
    }
}

/// Reading `len` bytes at `pos` verbatim.
pub open spec fn spec_read_bytes(bytes: Seq<u8>, pos: int, len: int) -> Result<
    (Seq<u8>, int),
    JvmError,
> {
    if can_read(bytes, pos, len) {
        Ok((bytes.subrange(pos, pos + len), pos + len))
    } else {
        Err(JvmError::BoundedRead)
    }
}

/// Reading `len` bytes at `pos` as a UTF-8 string.
pub open spec fn spec_read_string(bytes: Seq<u8>, pos: int, len: int) -> Result<
    (Seq<char>, int),
    JvmError,
> {
    if !can_read(bytes, pos, len) {
        Err(JvmError::BoundedRead)
    } else if !valid_utf8(bytes.subrange(pos, pos + len)) {
        Err(JvmError::InvalidUtf8)
    } else {
        Ok((decode_utf8(bytes.subrange(pos, pos + len)), pos + len))
    }
}

/// Skipping `len` bytes at `pos`.
pub open spec fn spec_skip(bytes: Seq<u8>, pos: int, len: int) -> Result<((), int), JvmError> {
    if can_read(bytes, pos, len) {
        Ok(((), pos + len))
    } else {
        Err(JvmError::BoundedRead)
    }
}

/// A byte sequence with a cursor that only moves forward.
pub struct RawClassData {
    /// The position of the next byte to read.
    pub cursor: usize,
    /// The bytes of the class file.
    pub data: Vec<u8>,
}

/// `std::str::from_utf8`, with the string copied out: the result is `Some`
/// exactly for well-formed UTF-8, and then holds the characters that the
/// bytes encode. This contract is believed, not proved.
#[verifier::external_body]
fn utf8_to_string(bytes: &[u8]) -> (res: Option<String>)
    ensures
        res is Some <==> valid_utf8(bytes@),
        res matches Some(s) ==> s@ == decode_utf8(bytes@),
{
    match std::str::from_utf8(bytes) {
        Ok(s) => Some(s.to_owned()),
        Err(_) => None,
    }
}

impl RawClassData {
    /// What a parser that reads at the cursor owes its caller: the bytes are
    /// untouched, the cursor has not moved back and has not left the bytes,
    /// and the outcome is the one that `expected` gives for the bytes and the
    /// cursor before the call, with the cursor behind what was read on
    /// success.
    pub open spec fn delivers<T: DeepView>(
        self,
        before: RawClassData,
        res: Result<T, JvmError>,
        expected: Result<(T::V, int), JvmError>,
    ) -> bool {
        &&& self.data@ == before.data@
        &&& before.cursor <= self.cursor
        &&& before.cursor <= before.data.len() ==> self.cursor <= self.data.len()
        &&& match expected {
            Ok((value, next)) => res is Ok && res->Ok_0.deep_view() == value && self.cursor == next,
            Err(e) => res is Err && res->Err_0 == e,
        }
    }

    /// As `delivers`, for a read that leaves the cursor where it was when it
    /// fails.
    pub open spec fn delivers_or_stays<T: DeepView>(
        self,
        before: RawClassData,
        res: Result<T, JvmError>,
        expected: Result<(T::V, int), JvmError>,
    ) -> bool {
        &&& self.delivers(before, res, expected)
        &&& res is Err ==> self.cursor == before.cursor
    }

    /// The number of bytes behind the cursor.
    pub open spec fn spec_remaining(self) -> nat {
        if self.cursor <= self.data.len() {
            (self.data.len() - self.cursor) as nat
        } else {
            0
        }
    }

    /// A reader at the start of `data`.
    pub fn new(data: Vec<u8>) -> (r: RawClassData)
        ensures
            r.data@ == data@,
            r.cursor == 0,
    {
        RawClassData { cursor: 0, data }
    }

    /// Reads eight bytes as a big-endian number.
    pub fn read_8_bytes(&mut self) -> (res: Result<u64, JvmError>)
        ensures
            final(self).delivers_or_stays(
                *old(self),
                res,
                spec_read_u64(old(self).data@, old(self).cursor as int),
            ),
    {
        if let Some(error) = self.check_boundary(8) {
            return Err(error);
        }
        let offset = self.cursor;
        let b0 = self.data[offset] as u64;
        let b1 = self.data[offset + 1] as u64;
        let b2 = self.data[offset + 2] as u64;
        let b3 = self.data[offset + 3] as u64;
        let b4 = self.data[offset + 4] as u64;
        let b5 = self.data[offset + 5] as u64;
        let b6 = self.data[offset + 6] as u64;
        let b7 = self.data[offset + 7] as u64;
        let value = b0 << 56 | b1 << 48 | b2 << 40 | b3 << 32 | b4 << 24 | b5 << 16 | b6 << 8 | b7;
        assert(value == ((((b0 * 0x100 + b1) * 0x1_0000 + (b2 * 0x100 + b3)) * 0x1_0000_0000) + ((b4
            * 0x100 + b5) * 0x1_0000 + (b6 * 0x100 + b7)))) by (bit_vector)
            requires
                value == b0 << 56 | b1 << 48 | b2 << 40 | b3 << 32 | b4 << 24 | b5 << 16 | b6 << 8
                    | b7,
                b0 < 0x100,
                b1 < 0x100,
                b2 < 0x100,
                b3 < 0x100,
                b4 < 0x100,
                b5 < 0x100,
                b6 < 0x100,
                b7 < 0x100,
        ;
        self.cursor += 8;
        Ok(value)
    }

    /// Reads four bytes as a big-endian number.
    pub fn read_4_bytes(&mut self) -> (res: Result<u32, JvmError>)
        ensures
            final(self).delivers_or_stays(
                *old(self),
                res,
                spec_read_u32(old(self).data@, old(self).cursor as int),
            ),
    {
        if let Some(error) = self.check_boundary(4) {
            return Err(error);
        }
        let offset = self.cursor;
        let b0 = self.data[offset] as u32;
        let b1 = self.data[offset + 1] as u32;
        let b2 = self.data[offset + 2] as u32;
        let b3 = self.data[offset + 3] as u32;
        let value = b0 << 24 | b1 << 16 | b2 << 8 | b3;
        assert(value == (b0 * 0x100 + b1) * 0x1_0000 + (b2 * 0x100 + b3)) by (bit_vector)
            requires
                value == b0 << 24 | b1 << 16 | b2 << 8 | b3,
                b0 < 0x100,
                b1 < 0x100,
                b2 < 0x100,
                b3 < 0x100,
        ;
        self.cursor += 4;
        Ok(value)
    }

    /// Reads two bytes as a big-endian number.
    pub fn read_2_bytes(&mut self) -> (res: Result<u16, JvmError>)
        ensures
            final(self).delivers_or_stays(
                *old(self),
                res,
                spec_read_u16(old(self).data@, old(self).cursor as int),
            ),
    {
        if let Some(error) = self.check_boundary(2) {
            return Err(error);
        }
        let offset = self.cursor;
        let b0 = self.data[offset] as u16;
        let b1 = self.data[offset + 1] as u16;
        let value = b0 << 8 | b1;
        assert(value == b0 * 0x100 + b1) by (bit_vector)
            requires
                value == b0 << 8 | b1,
                b0 < 0x100,
                b1 < 0x100,
        ;
        self.cursor += 2;
        Ok(value)
    }

    /// Reads one byte.
    pub fn read_1_byte(&mut self) -> (res: Result<u8, JvmError>)
        ensures
            final(self).delivers_or_stays(
                *old(self),
                res,
                spec_read_u8(old(self).data@, old(self).cursor as int),
            ),
    {
        if let Some(error) = self.check_boundary(1) {
            return Err(error);
        }
        let value = self.data[self.cursor];
        self.cursor += 1;
        Ok(value)
    }

    /// Reads `length` bytes and decodes them as UTF-8.
    pub fn read_string(&mut self, length: usize) -> (res: Result<String, JvmError>)
        ensures
            final(self).delivers_or_stays(
                *old(self),
                res,
                spec_read_string(old(self).data@, old(self).cursor as int, length as int),
            ),
    {
        if let Some(error) = self.check_boundary(length) {
            return Err(error);
        }
        let bytes = slice_subrange(self.data.as_slice(), self.cursor, self.cursor + length);
        match utf8_to_string(bytes) {
            Some(value) => {
                self.cursor += length;
                Ok(value)
            },
            None => Err(JvmError::InvalidUtf8),
        }
    }

    /// Reads `length` bytes as they are.
    pub fn read_bytes(&mut self, length: usize) -> (res: Result<Vec<u8>, JvmError>)
        ensures
            final(self).delivers_or_stays(
                *old(self),
                res,
                spec_read_bytes(old(self).data@, old(self).cursor as int, length as int),
            ),
    {
        if let Some(error) = self.check_boundary(length) {
            return Err(error);
        }
        let bytes = slice_subrange(self.data.as_slice(), self.cursor, self.cursor + length);
        let value = slice_to_vec(bytes);
        assert(value.deep_view() =~= bytes@);
        self.cursor += length;
        Ok(value)
    }

    /// Moves the cursor over `length` bytes.
    pub fn skip(&mut self, length: usize) -> (res: Result<(), JvmError>)
        ensures
            final(self).delivers_or_stays(
                *old(self),
                res,
                spec_skip(old(self).data@, old(self).cursor as int, length as int),
            ),
    {
        if let Some(error) = self.check_boundary(length) {
            return Err(error);
        }
        self.cursor += length;
        Ok(())
    }

    /// The bounded-read error if fewer than `length` bytes are left at the
    /// cursor, and nothing otherwise.
    pub fn check_boundary(&self, length: usize) -> (res: Option<JvmError>)
        ensures
            res == if can_read(self.data@, self.cursor as int, length as int) {
                None
            } else {
                Some(JvmError::BoundedRead)
            },
            res is None ==> self.cursor + length <= usize::MAX,
    {
        if self.cursor > self.data.len() || length > self.data.len() - self.cursor {
            return Some(JvmError::BoundedRead);
        }
        None
    }
}

} // verus!
