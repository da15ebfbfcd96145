//! Unsigned LEB128: a number in groups of seven bits, lowest group first,
//! where the high bit of a byte says that another group follows.

use vstd::prelude::*;
use vstd::arithmetic::div_mod::{
    lemma_add_mod_noop, lemma_add_mod_noop_right, lemma_mul_mod_noop_left,
};
use crate::bytes::signed32;
use crate::errors::{Error, IoError};

verus! {

/// The position behind the number that starts at `pos` of `b`, or `None`
/// where the buffer ends before the number does.
pub open spec fn leb_end(b: Seq<u8>, pos: int) -> Option<int>
    decreases b.len() - pos,
{
    if pos < 0 || pos >= b.len() {
        None
    } else if b[pos] < 0x80 {
        Some(pos + 1)
    } else {
        leb_end(b, pos + 1)
    }
}

/// The number that starts at `pos` of `b`: the low seven bits of its first
/// byte, plus 128 times the number that the following bytes continue.
pub open spec fn leb_value(b: Seq<u8>, pos: int) -> nat
    decreases b.len() - pos,
{
    if pos < 0 || pos >= b.len() {
        0
    } else if b[pos] < 0x80 {
        b[pos] as nat
    } else {
        (b[pos] - 0x80) as nat + 0x80 * leb_value(b, pos + 1)
    }
}

/// The low 32 bits of the number that starts at `pos` of `b`.
pub open spec fn leb_u32(b: Seq<u8>, pos: int) -> u32 {
    (leb_value(b, pos) % 0x1_0000_0000) as u32
}

/// The low 32 bits of the number that starts at `pos` of `b`, taken as a
/// signed number.
pub open spec fn leb_i32(b: Seq<u8>, pos: int) -> i32 {
    signed32(leb_u32(b, pos))
}

/// A number that is there ends behind its start and inside the buffer.
pub proof fn lemma_leb_end(b: Seq<u8>, pos: int)
    ensures
        leb_end(b, pos) matches Some(next) ==> 0 <= pos < next <= b.len(),
    decreases b.len() - pos,
{
    if 0 <= pos < b.len() && b[pos] >= 0x80 {
        lemma_leb_end(b, pos + 1);
    }
}

proof fn lemma_mod_step(x: nat, y: nat, d: nat, m: nat)
    requires
        m > 0,
    ensures
        ((x % m) + (y % m) * d) % m == (x + y * d) % m,
        ((y % m) * 0x80) % m == (y * 0x80) % m,
{
    let a = (x % m) as int;
    let b = ((y % m) * d) as int;
    lemma_add_mod_noop_right(a, b, m as int);
    lemma_mul_mod_noop_left(y as int, d as int, m as int);
    lemma_add_mod_noop(x as int, (y * d) as int, m as int);
    lemma_add_mod_noop_right(a, (y * d) as int, m as int);
    lemma_mul_mod_noop_left(y as int, 0x80, m as int);
}

/// Reads the number that starts at `pos` of `bytes`, and says where it
/// ends.
pub fn read_leb128(bytes: &[u8], pos: usize) -> (r: Result<(u32, usize), Error>)
    ensures
        match r {
            Ok((v, next)) => leb_end(bytes@, pos as int) == Some(next as int) && v == leb_u32(
                bytes@,
                pos as int,
            ),
            Err(e) => e == Error::Io(IoError::UnexpectedEof) && leb_end(bytes@, pos as int)
                is None,
        },
{
    let len = bytes.len();
    let mut acc: u64 = 0;
    let mut mult: u64 = 1;
    let mut i: usize = pos;
    let ghost mut partial: nat = 0;
    let ghost mut power: nat = 1;
    loop
        invariant
            pos <= i,
            len == bytes@.len(),
            leb_end(bytes@, pos as int) == leb_end(bytes@, i as int),
            leb_value(bytes@, pos as int) == partial + power * leb_value(bytes@, i as int),
            acc == partial % 0x1_0000_0000,
            mult == power % 0x1_0000_0000,
        decreases len - i,
    {
        if i >= len {
            return Err(Error::Io(IoError::UnexpectedEof));
        }
        let byte = bytes[i];
        let digit = (byte & 0x7f) as u64;
        assert(byte & 0x7f == byte % 0x80) by (bit_vector);
        assert((byte & 0x80 == 0) == (byte < 0x80)) by (bit_vector);
        proof {
            lemma_mod_step(partial, power, digit as nat, 0x1_0000_0000);
            assert(mult * digit <= 0xffff_ffff * 0x7f) by (nonlinear_arith)
                requires
                    mult <= 0xffff_ffff,
                    digit <= 0x7f,
            ;
            assert(mult * 0x80 <= 0xffff_ffff * 0x80) by (nonlinear_arith)
                requires
                    mult <= 0xffff_ffff,
            ;
            let rest = leb_value(bytes@, i + 1);
            assert(power * (digit + 0x80 * rest) == power * digit + (power * 0x80) * rest)
                by (nonlinear_arith);
        }
        acc = (acc + mult * digit) % 0x1_0000_0000;
        if byte & 0x80 == 0 {
            return Ok((acc as u32, i + 1));
        }
        mult = (mult * 0x80) % 0x1_0000_0000;
        proof {
            partial = partial + power * (digit as nat);
            power = power * 0x80;
        }
        i = i + 1;
    }
}

} // verus!
