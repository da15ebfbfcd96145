//! Text that the decoders produce: NUL-terminated names taken from the image,
//! and numbers rendered in decimal and hexadecimal.

use vstd::prelude::*;

verus! {

/// The position of the first NUL byte of `s` in `from..to`, or `to` where
/// there is none.
pub open spec fn first_nul(s: Seq<u8>, from: int, to: int) -> int
    decreases to - from,
{
    if from >= to {
        to
    } else if s[from] == 0 {
        from
    } else {
        first_nul(s, from + 1, to)
    }
}

/// `first_nul` lies in `from..=to`, no byte before it is NUL, and it is NUL
/// unless it is `to`.
pub proof fn lemma_first_nul(s: Seq<u8>, from: int, to: int)
    requires
        from <= to,
    ensures
        from <= first_nul(s, from, to) <= to,
        forall|i: int| from <= i < first_nul(s, from, to) ==> s[i] != 0,
        first_nul(s, from, to) < to ==> s[first_nul(s, from, to)] == 0,
    decreases to - from,
{
    if from < to && s[from] != 0 {
        lemma_first_nul(s, from + 1, to);
    }
}

/// A position `r` in `from..=to` with no NUL before it, and NUL at it unless
/// it is `to`, is `first_nul`.
pub proof fn lemma_first_nul_unique(s: Seq<u8>, from: int, to: int, r: int)
    requires
        from <= r <= to,
        forall|i: int| from <= i < r ==> s[i] != 0,
        r < to ==> s[r] == 0,
    ensures
        first_nul(s, from, to) == r,
    decreases to - from,
{
    if from < to && from < r {
        lemma_first_nul_unique(s, from + 1, to, r);
    }
}

/// Finds the first NUL byte of `data` in `from..to`.
pub fn find_nul(data: &[u8], from: usize, to: usize) -> (r: usize)
    requires
        from <= to <= data@.len(),
    ensures
        r == first_nul(data@, from as int, to as int),
        from <= r <= to,
{
    let mut i: usize = from;
    while i < to && data[i] != 0
        invariant
            from <= i <= to <= data@.len(),
            first_nul(data@, from as int, to as int) == first_nul(data@, i as int, to as int),
        decreases to - i,
    {
        i = i + 1;
    }
    i
}

/// What `String::from_utf8_lossy` makes of `bytes`: the text that they encode
/// in UTF-8, with U+FFFD in place of each ill-formed part.
pub uninterp spec fn utf8_lossy(bytes: Seq<u8>) -> Seq<char>;

/// `String::from_utf8_lossy`, as an owned string. The text depends on the
/// bytes alone.
#[verifier::external_body]
pub(crate) fn lossy_string(bytes: &[u8]) -> (s: String)
    ensures
        s@ == utf8_lossy(bytes@),
{
    String::from_utf8_lossy(bytes).into_owned()
}

/// The lower-case hexadecimal digit for `d`, where `d < 16`.
pub open spec fn hex_digit(d: nat) -> char {
    if d < 10 {
        (d + 48) as char
    } else {
        (d + 87) as char
    }
}

/// `n` in lower-case hexadecimal, without prefix or leading zeros.
pub open spec fn hex_digits(n: nat) -> Seq<char>
    decreases n,
{
    if n < 16 {
        seq![hex_digit(n)]
    } else {
        hex_digits(n / 16).push(hex_digit(n % 16))
    }
}

/// `n` in decimal, without leading zeros.
pub open spec fn decimal_digits(n: nat) -> Seq<char>
    decreases n,
{
    if n < 10 {
        seq![(n + 48) as char]
    } else {
        decimal_digits(n / 10).push((n % 10 + 48) as char)
    }
}

/// `v` in decimal, with a minus sign where it is negative.
pub open spec fn decimal_text(v: int) -> Seq<char> {
    if v < 0 {
        seq!['-'] + decimal_digits((-v) as nat)
    } else {
        decimal_digits(v as nat)
    }
}

/// `format!` with `{:x}`: std renders a `u32` in lower-case hexadecimal
/// without prefix or leading zeros.
#[verifier::external_body]
pub(crate) fn lower_hex(v: u32) -> (s: String)
    ensures
        s@ == hex_digits(v as nat),
{
    format!("{:x}", v)
}

/// `format!` with `{}`: std renders an `i32` in decimal, with a minus sign
/// where it is negative.
#[verifier::external_body]
pub(crate) fn decimal(v: i32) -> (s: String)
    ensures
        s@ == decimal_text(v as int),
{
    format!("{}", v)
}

} // verus!
