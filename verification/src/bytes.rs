//! Little-endian fields of a byte buffer, and a forward-only reader over one.

use vstd::prelude::*;
use byteorder::{ByteOrder, LittleEndian};
use crate::errors::{Error, IoError};

verus! {

/// The unsigned 16-bit little-endian number at `s[i..i + 2]`.
pub open spec fn u16_at(s: Seq<u8>, i: int) -> u16 {
    (s[i] as int + 0x100 * (s[i + 1] as int)) as u16
}

/// The unsigned 32-bit little-endian number at `s[i..i + 4]`.
pub open spec fn u32_at(s: Seq<u8>, i: int) -> u32 {
    (s[i] as int + 0x100 * (s[i + 1] as int) + 0x1_0000 * (s[i + 2] as int) + 0x100_0000 * (s[i
        + 3] as int)) as u32
}

/// The number that the 16 bits of `v` stand for in two's complement.
pub open spec fn signed16(v: u16) -> i16 {
    if v >= 0x8000 {
        (v as int - 0x1_0000) as i16
    } else {
        v as i16
    }
}

/// The number that the 32 bits of `v` stand for in two's complement.
pub open spec fn signed32(v: u32) -> i32 {
    if v >= 0x8000_0000 {
        (v as int - 0x1_0000_0000) as i32
    } else {
        v as i32
    }
}

/// The number that the 32 bits of `v` stand for without a sign.
pub open spec fn unsigned32(v: i32) -> u32 {
    if v < 0 {
        (v + 0x1_0000_0000) as u32
    } else {
        v as u32
    }
}

/// The number that the 32 bits of `v` stand for in two's complement.
pub fn as_signed(v: u32) -> (r: i32)
    ensures
        r == signed32(v),
{
    if v >= 0x8000_0000 {
        (v as i64 - 0x1_0000_0000) as i32
    } else {
        v as i32
    }
}

/// The number that the 32 bits of `v` stand for without a sign.
pub fn as_unsigned(v: i32) -> (r: u32)
    ensures
        r == unsigned32(v),
{
    if v < 0 {
        (v as i64 + 0x1_0000_0000) as u32
    } else {
        v as u32
    }
}

/// The signed 16-bit little-endian number at `s[i..i + 2]`.
pub open spec fn i16_at(s: Seq<u8>, i: int) -> i16 {
    signed16(u16_at(s, i))
}

/// The signed 32-bit little-endian number at `s[i..i + 4]`.
pub open spec fn i32_at(s: Seq<u8>, i: int) -> i32 {
    signed32(u32_at(s, i))
}

/// `byteorder::LittleEndian::read_u16`: the first two bytes of `buf` as an
/// unsigned little-endian number. The crate panics on a shorter buffer.
#[verifier::external_body]
fn le_u16(buf: &[u8]) -> (v: u16)
    requires
        buf@.len() >= 2,
    ensures
        v == u16_at(buf@, 0),
{
    LittleEndian::read_u16(buf)
}

/// `byteorder::LittleEndian::read_i16`: the first two bytes of `buf` as a
/// two's complement little-endian number. The crate panics on a shorter buffer.
#[verifier::external_body]
fn le_i16(buf: &[u8]) -> (v: i16)
    requires
        buf@.len() >= 2,
    ensures
        v == i16_at(buf@, 0),
{
    LittleEndian::read_i16(buf)
}

/// `byteorder::LittleEndian::read_u32`: the first four bytes of `buf` as an
/// unsigned little-endian number. The crate panics on a shorter buffer.
#[verifier::external_body]
fn le_u32(buf: &[u8]) -> (v: u32)
    requires
        buf@.len() >= 4,
    ensures
        v == u32_at(buf@, 0),
{
    LittleEndian::read_u32(buf)
}

/// `byteorder::LittleEndian::read_i32`: the first four bytes of `buf` as a
/// two's complement little-endian number. The crate panics on a shorter buffer.
#[verifier::external_body]
fn le_i32(buf: &[u8]) -> (v: i32)
    requires
        buf@.len() >= 4,
    ensures
        v == i32_at(buf@, 0),
{
    LittleEndian::read_i32(buf)
}

/// A read position in a byte buffer that only moves forward.
pub struct ByteReader<'a> {
    pub data: &'a [u8],
    pub pos: usize,
}

impl<'a> ByteReader<'a> {
    /// Whether `n` more bytes can be read.
    pub open spec fn has(&self, n: int) -> bool {
        self.pos + n <= self.data@.len()
    }

    pub fn new(data: &'a [u8]) -> (r: Self)
        ensures
            r.data@ == data@,
            r.pos == 0,
    {
        ByteReader { data, pos: 0 }
    }

    /// A reader over `data` that starts at `pos`, which may lie beyond the end.
    pub fn at(data: &'a [u8], pos: usize) -> (r: Self)
        ensures
            r.data@ == data@,
            r.pos == pos,
    {
        ByteReader { data, pos }
    }

    fn window(&self, n: usize) -> (r: Result<&'a [u8], Error>)
        ensures
            self.data@.len() <= usize::MAX,
            match r {
                Ok(w) => self.has(n as int) && w@ == self.data@.subrange(
                    self.pos as int,
                    self.pos + n,
                ),
                Err(e) => !self.has(n as int) && e == Error::Io(IoError::UnexpectedEof),
            },
    {
        if self.pos <= self.data.len() && n <= self.data.len() - self.pos {
            Ok(&self.data[self.pos..self.pos + n])
        } else {
            Err(Error::Io(IoError::UnexpectedEof))
        }
    }

    pub fn read_u8(&mut self) -> (r: Result<u8, Error>)
        ensures
            final(self).data@ == old(self).data@,
            match r {
                Ok(v) => old(self).has(1) && v == old(self).data@[old(self).pos as int]
                    && final(self).pos == old(self).pos + 1,
                Err(e) => !old(self).has(1) && e == Error::Io(IoError::UnexpectedEof)
                    && final(self).pos == old(self).pos,
            },
    {
        let w = self.window(1)?;
        self.pos = self.pos + 1;
        Ok(w[0])
    }

    pub fn read_u16(&mut self) -> (r: Result<u16, Error>)
        ensures
            final(self).data@ == old(self).data@,
            match r {
                Ok(v) => old(self).has(2) && v == u16_at(old(self).data@, old(self).pos as int)
                    && final(self).pos == old(self).pos + 2,
                Err(e) => !old(self).has(2) && e == Error::Io(IoError::UnexpectedEof)
                    && final(self).pos == old(self).pos,
            },
    {
        let w = self.window(2)?;
        self.pos = self.pos + 2;
        Ok(le_u16(w))
    }

    pub fn read_i16(&mut self) -> (r: Result<i16, Error>)
        ensures
            final(self).data@ == old(self).data@,
            match r {
                Ok(v) => old(self).has(2) && v == i16_at(old(self).data@, old(self).pos as int)
                    && final(self).pos == old(self).pos + 2,
                Err(e) => !old(self).has(2) && e == Error::Io(IoError::UnexpectedEof)
                    && final(self).pos == old(self).pos,
            },
    {
        let w = self.window(2)?;
        self.pos = self.pos + 2;
        Ok(le_i16(w))
    }

    pub fn read_u32(&mut self) -> (r: Result<u32, Error>)
        ensures
            final(self).data@ == old(self).data@,
            match r {
                Ok(v) => old(self).has(4) && v == u32_at(old(self).data@, old(self).pos as int)
                    && final(self).pos == old(self).pos + 4,
                Err(e) => !old(self).has(4) && e == Error::Io(IoError::UnexpectedEof)
                    && final(self).pos == old(self).pos,
            },
    {
        let w = self.window(4)?;
        self.pos = self.pos + 4;
        Ok(le_u32(w))
    }

    pub fn read_i32(&mut self) -> (r: Result<i32, Error>)
        ensures
            final(self).data@ == old(self).data@,
            match r {
                Ok(v) => old(self).has(4) && v == i32_at(old(self).data@, old(self).pos as int)
                    && final(self).pos == old(self).pos + 4,
                Err(e) => !old(self).has(4) && e == Error::Io(IoError::UnexpectedEof)
                    && final(self).pos == old(self).pos,
            },
    {
        let w = self.window(4)?;
        self.pos = self.pos + 4;
        Ok(le_i32(w))
    }

    /// Moves `n` bytes forward, or to the end of the buffer where fewer
    /// follow. A reader that stands behind the end stays there.
    pub fn skip(&mut self, n: usize)
        ensures
            final(self).data@ == old(self).data@,
            final(self).pos == (if old(self).has(n as int) {
                old(self).pos + n
            } else if old(self).pos < old(self).data@.len() {
                old(self).data@.len() as int
            } else {
                old(self).pos as int
            }),
    {
        if self.pos <= self.data.len() && n <= self.data.len() - self.pos {
            self.pos = self.pos + n;
        } else if self.pos < self.data.len() {
            self.pos = self.data.len();
        }
    }
}

} // verus!
