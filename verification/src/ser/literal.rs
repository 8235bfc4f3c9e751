//! The text of a literal, as sequences of bytes, and the functions that
//! append the pieces which take a computation to a buffer.

use crate::ser::identifier::identifier_text;
use vstd::prelude::*;
use vstd::utf8::encode_utf8;

verus! {

/// The byte of the decimal digit `d`.
pub open spec fn digit(d: nat) -> u8
    recommends
        d < 10,
{
    (48 + d) as u8
}

/// The decimal digits of `n`, most significant first, without leading zeros.
pub open spec fn digits(n: nat) -> Seq<u8>
    decreases n,
{
    if n < 10 {
        seq![digit(n)]
    } else {
        digits(n / 10).push(digit(n % 10))
    }
}

/// The literal of an integer: a minus sign where it is negative, then the
/// digits of its magnitude.
pub open spec fn integer_text(v: int) -> Seq<u8> {
    if v < 0 {
        seq![45u8] + digits((-v) as nat)
    } else {
        digits(v as nat)
    }
}

/// The byte of the hexadecimal digit `d`, in lower case.
pub open spec fn hex_digit(d: nat) -> u8
    recommends
        d < 16,
{
    if d < 10 {
        (48 + d) as u8
    } else {
        (87 + d) as u8
    }
}

/// One byte as it stands inside a bytes literal: a backslash, `x` and two
/// hexadecimal digits.
pub open spec fn escaped_byte(b: u8) -> Seq<u8> {
    seq![92u8, 120u8, hex_digit(b as nat / 16), hex_digit(b as nat % 16)]
}

/// The bytes of `v`, each escaped, in order.
pub open spec fn escaped_bytes(v: Seq<u8>) -> Seq<u8>
    decreases v.len(),
{
    if v.len() == 0 {
        Seq::empty()
    } else {
        escaped_bytes(v.drop_last()) + escaped_byte(v.last())
    }
}

/// The literal of a boolean.
pub open spec fn bool_text(v: bool) -> Seq<u8> {
    if v {
        encode_utf8("TRUE"@)
    } else {
        encode_utf8("FALSE"@)
    }
}

/// The literal of a string: its text in UTF-8 between double quotes. A double
/// quote inside the text is not escaped.
pub open spec fn string_text(s: Seq<char>) -> Seq<u8> {
    seq![34u8] + encode_utf8(s) + seq![34u8]
}

/// The literal of a byte sequence: `b`, then the escaped bytes between double
/// quotes.
pub open spec fn bytes_text(v: Seq<u8>) -> Seq<u8> {
    seq![98u8, 34u8] + escaped_bytes(v) + seq![34u8]
}

/// The literal of an absent value.
pub open spec fn null_text() -> Seq<u8> {
    encode_utf8("NULL"@)
}

/// What follows a struct member that has a name: ` AS ` and the name as an
/// identifier. Nothing follows a member without a name or with the empty name.
pub open spec fn name_suffix(name: Option<Seq<char>>) -> Seq<u8> {
    match name {
        Some(n) => if n.len() > 0 {
            encode_utf8(" AS "@) + encode_utf8(identifier_text(n))
        } else {
            Seq::empty()
        },
        None => Seq::empty(),
    }
}

/// What opens an array literal.
pub open spec fn array_open() -> Seq<u8> {
    seq![91u8]
}

/// What closes an array literal.
pub open spec fn array_close() -> Seq<u8> {
    seq![93u8]
}

/// What opens a struct literal.
pub open spec fn struct_open() -> Seq<u8> {
    encode_utf8("STRUCT("@)
}

/// What closes a struct literal.
pub open spec fn struct_close() -> Seq<u8> {
    seq![41u8]
}

/// What stands before a member of an aggregate: a comma, but before the
/// first.
pub open spec fn separator(first: bool) -> Seq<u8> {
    if first {
        Seq::empty()
    } else {
        seq![44u8]
    }
}

/// The string that holds the one character `c`: what `char::to_string`
/// returns.
#[verifier::external_body]
pub(crate) fn char_to_string(c: char) -> (s: String)
    ensures
        s@ == seq![c],
{
    c.to_string()
}

/// Appends the decimal digits of `v`.
pub fn push_digits(out: &mut Vec<u8>, v: u64)
    ensures
        final(out)@ == old(out)@ + digits(v as nat),
    decreases v,
{
    if v >= 10 {
        push_digits(out, v / 10);
    }
    let d: u8 = (v % 10) as u8;
    out.push(48u8 + d);
    assert(final(out)@ =~= old(out)@ + digits(v as nat));
}

/// Appends one escaped byte.
pub fn push_escaped_byte(out: &mut Vec<u8>, b: u8)
    ensures
        final(out)@ == old(out)@ + escaped_byte(b),
{
    let high: u8 = b / 16;
    let low: u8 = b % 16;
    out.push(92u8);
    out.push(120u8);
    out.push(hex_digit_byte(high));
    out.push(hex_digit_byte(low));
    assert(final(out)@ =~= old(out)@ + escaped_byte(b));
}

/// The byte of one hexadecimal digit.
pub fn hex_digit_byte(d: u8) -> (r: u8)
    requires
        d < 16,
    ensures
        r == hex_digit(d as nat),
{
    if d < 10 {
        48u8 + d
    } else {
        87u8 + d
    }
}

/// Appends the bytes of `v`, each escaped.
pub fn push_escaped_bytes(out: &mut Vec<u8>, v: &[u8])
    ensures
        final(out)@ == old(out)@ + escaped_bytes(v@),
{
    let mut i: usize = 0;
    assert(v@.take(0) =~= Seq::<u8>::empty());
    assert(out@ =~= old(out)@ + escaped_bytes(v@.take(0)));
    while i < v.len()
        invariant
            i <= v.len(),
            out@ == old(out)@ + escaped_bytes(v@.take(i as int)),
        decreases v.len() - i,
    {
        let ghost before = out@;
        push_escaped_byte(out, v[i]);
        proof {
            let next = v@.take(i + 1);
            assert(next.drop_last() =~= v@.take(i as int));
            assert(next.last() == v@[i as int]);
            assert(out@ =~= old(out)@ + escaped_bytes(next));
        }
        i += 1;
    }
    assert(v@.take(i as int) =~= v@);
}

} // verus!
