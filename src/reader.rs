use vstd::prelude::*;
use crate::bytes::{i32_at, i32_from_le, u32_at, u32_from_le};
use crate::error::BspError;
use crate::text::{
    all_ascii, ascii_chars, bytes_to_vec, field_text, string_from_utf8, text_of_field, until_nul,
    utf8_text,
};

verus! {

/// The bytes of a level file and a read position into them.
pub struct BSPReader {
    pub data: Vec<u8>,
    marker: usize,
}

/// The `n` bytes of `d` that start at `p`.
pub open spec fn bytes_at(d: Seq<u8>, p: int, n: int) -> Seq<u8> {
    d.subrange(p, p + n)
}

/// The text of the `n`-byte field of `d` at `p`.
pub open spec fn text_at(d: Seq<u8>, p: int, n: int) -> Option<Seq<char>> {
    field_text(bytes_at(d, p, n))
}

/// The text of an ASCII `n`-byte field of `d` at `p`: its bytes as
/// characters, up to the first NUL.
pub open spec fn ascii_text_at(d: Seq<u8>, p: int, n: int) -> Seq<char> {
    until_nul(ascii_chars(bytes_at(d, p, n)))
}

impl BSPReader {
    /// The bytes being read.
    pub closed spec fn bytes(&self) -> Seq<u8> {
        self.data@
    }

    /// The read position.
    pub closed spec fn pos(&self) -> int {
        self.marker as int
    }

    /// The read position.
    pub fn position(&self) -> (r: usize)
        ensures
            r == self.pos(),
    {
        self.marker
    }

    /// The number of bytes being read.
    pub fn len(&self) -> (r: usize)
        ensures
            r == self.bytes().len(),
    {
        self.data.len()
    }

    /// The byte at index `i`; the read position does not move.
    pub fn byte_at(&self, i: usize) -> (r: u8)
        requires
            i < self.bytes().len(),
        ensures
            r == self.bytes()[i as int],
    {
        self.data[i]
    }

    /// A reader over `data`, positioned at its first byte.
    pub fn new(data: Vec<u8>) -> (r: BSPReader)
        ensures
            r.bytes() == data@,
            r.pos() == 0,
    {
        BSPReader { data, marker: 0 }
    }

    /// Moves the read position to `offset`. Nothing is checked here: a read
    /// from a position past the end fails.
    pub fn jump(&mut self, offset: usize)
        ensures
            final(self).bytes() == old(self).bytes(),
            final(self).pos() == offset,
    {
        self.marker = offset;
    }

    /// The byte at the read position, which then moves past it.
    pub fn read_ubyte(&mut self) -> (r: Result<u8, BspError>)
        ensures
            final(self).bytes() == old(self).bytes(),
            old(self).pos() < old(self).bytes().len() ==> r == Ok::<u8, BspError>(
                old(self).bytes()[old(self).pos()],
            ) && final(self).pos() == old(self).pos() + 1,
            old(self).pos() >= old(self).bytes().len() ==> r == Err::<u8, BspError>(
                BspError::OutOfRange,
            ) && final(self).pos() == old(self).pos(),
    {
        if self.marker < self.data.len() {
            let b = self.data[self.marker];
            self.marker = self.marker + 1;
            Ok(b)
        } else {
            Err(BspError::OutOfRange)
        }
    }

    /// The byte at the read position, where it is known to be there.
    pub(crate) fn next_u8(&mut self) -> (r: u8)
        requires
            old(self).pos() < old(self).bytes().len(),
        ensures
            final(self).bytes() == old(self).bytes(),
            final(self).pos() == old(self).pos() + 1,
            r == old(self).bytes()[old(self).pos()],
    {
        assert(self.marker < self.data.len());
        let r = self.data[self.marker];
        self.marker = self.marker + 1;
        r
    }

    /// The four bytes at the read position as a little-endian unsigned value,
    /// where they are known to be there.
    pub(crate) fn next_u32(&mut self) -> (r: u32)
        requires
            old(self).pos() + 4 <= old(self).bytes().len(),
        ensures
            final(self).bytes() == old(self).bytes(),
            final(self).pos() == old(self).pos() + 4,
            r == u32_at(old(self).bytes(), old(self).pos()),
    {
        let p = self.marker;
        assert(p + 4 <= self.data.len());
        let r = u32_from_le(self.data[p], self.data[p + 1], self.data[p + 2], self.data[p + 3]);
        self.marker = p + 4;
        r
    }

    /// The four bytes at the read position as a little-endian signed value,
    /// where they are known to be there.
    pub(crate) fn next_i32(&mut self) -> (r: i32)
        requires
            old(self).pos() + 4 <= old(self).bytes().len(),
        ensures
            final(self).bytes() == old(self).bytes(),
            final(self).pos() == old(self).pos() + 4,
            r == i32_at(old(self).bytes(), old(self).pos()),
    {
        let p = self.marker;
        assert(p + 4 <= self.data.len());
        let r = i32_from_le(self.data[p], self.data[p + 1], self.data[p + 2], self.data[p + 3]);
        self.marker = p + 4;
        r
    }

    /// The four bytes at the read position as a little-endian signed 32-bit
    /// integer; the position moves past them.
    pub fn read_int(&mut self) -> (r: Result<i32, BspError>)
        ensures
            final(self).bytes() == old(self).bytes(),
            old(self).pos() + 4 <= old(self).bytes().len() ==> r == Ok::<i32, BspError>(
                i32_at(old(self).bytes(), old(self).pos()),
            ) && final(self).pos() == old(self).pos() + 4,
            old(self).pos() + 4 > old(self).bytes().len() ==> r == Err::<i32, BspError>(
                BspError::OutOfRange,
            ) && final(self).pos() == old(self).pos(),
    {
        if self.marker <= self.data.len() && 4 <= self.data.len() - self.marker {
            Ok(self.next_i32())
        } else {
            Err(BspError::OutOfRange)
        }
    }

    /// The four bytes at the read position as the bit pattern of a
    /// little-endian IEEE-754 single-precision float (`f32::from_bits` gives
    /// the float); the position moves past them.
    pub fn read_float(&mut self) -> (r: Result<u32, BspError>)
        ensures
            final(self).bytes() == old(self).bytes(),
            old(self).pos() + 4 <= old(self).bytes().len() ==> r == Ok::<u32, BspError>(
                u32_at(old(self).bytes(), old(self).pos()),
            ) && final(self).pos() == old(self).pos() + 4,
            old(self).pos() + 4 > old(self).bytes().len() ==> r == Err::<u32, BspError>(
                BspError::OutOfRange,
            ) && final(self).pos() == old(self).pos(),
    {
        if self.marker <= self.data.len() && 4 <= self.data.len() - self.marker {
            Ok(self.next_u32())
        } else {
            Err(BspError::OutOfRange)
        }
    }

    /// The text of the `length`-byte field at the read position, where it is
    /// known to be there; the position moves past the whole field.
    pub(crate) fn next_text(&mut self, length: usize) -> (r: Option<String>)
        requires
            old(self).pos() + length <= old(self).bytes().len(),
        ensures
            final(self).bytes() == old(self).bytes(),
            final(self).pos() == old(self).pos() + length,
            r is Some <==> text_at(old(self).bytes(), old(self).pos(), length as int) is Some,
            r is Some ==> text_at(old(self).bytes(), old(self).pos(), length as int) == Some(
                r->0@,
            ),
            all_ascii(bytes_at(old(self).bytes(), old(self).pos(), length as int)) ==> r is Some
                && r->0@ == ascii_text_at(old(self).bytes(), old(self).pos(), length as int),
    {
        let p = self.marker;
        assert(p + length <= self.data.len());
        let r = text_of_field(&self.data.as_slice()[p..p + length]);
        assert(self.data@.subrange(p as int, p + length) == bytes_at(
            self.data@,
            p as int,
            length as int,
        ));
        self.marker = p + length;
        r
    }

    /// The `length` bytes at the read position decoded as UTF-8, all of them,
    /// where they are known to be there; the position moves past them.
    pub(crate) fn next_raw_text(&mut self, length: usize) -> (r: Option<String>)
        requires
            old(self).pos() + length <= old(self).bytes().len(),
        ensures
            final(self).bytes() == old(self).bytes(),
            final(self).pos() == old(self).pos() + length,
            r is Some <==> utf8_text(bytes_at(old(self).bytes(), old(self).pos(), length as int))
                is Some,
            r is Some ==> utf8_text(bytes_at(old(self).bytes(), old(self).pos(), length as int))
                == Some(r->0@),
            all_ascii(bytes_at(old(self).bytes(), old(self).pos(), length as int)) ==> r is Some
                && r->0@ == ascii_chars(bytes_at(old(self).bytes(), old(self).pos(), length as int)),
    {
        let p = self.marker;
        assert(p + length <= self.data.len());
        let bytes = bytes_to_vec(&self.data.as_slice()[p..p + length]);
        assert(bytes@ == bytes_at(self.data@, p as int, length as int));
        self.marker = p + length;
        string_from_utf8(bytes)
    }

    /// Reads a `length`-byte text field: all of its bytes, which must be
    /// valid UTF-8, decoded as they stand (NUL padding included). The
    /// position moves past the whole field.
    pub fn read_string(&mut self, length: usize) -> (r: Result<String, BspError>)
        ensures
            final(self).bytes() == old(self).bytes(),
            old(self).pos() + length > old(self).bytes().len() ==> r == Err::<String, BspError>(
                BspError::OutOfRange,
            ),
            old(self).pos() + length <= old(self).bytes().len() ==> {
                let b = bytes_at(old(self).bytes(), old(self).pos(), length as int);
                &&& utf8_text(b) is None ==> r == Err::<String, BspError>(BspError::InvalidText)
                &&& utf8_text(b) is Some ==> r is Ok && r->Ok_0@ == utf8_text(b)->0
                &&& all_ascii(b) ==> r is Ok && r->Ok_0@ == ascii_chars(b)
                &&& r is Ok ==> final(self).pos() == old(self).pos() + length
            },
    {
        if self.marker <= self.data.len() && length <= self.data.len() - self.marker {
            match self.next_raw_text(length) {
                Some(s) => Ok(s),
                None => Err(BspError::InvalidText),
            }
        } else {
            Err(BspError::OutOfRange)
        }
    }
}

} // verus!
