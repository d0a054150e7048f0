//! Field names: comparing them, and forming the name of a numbered field.

use core::fmt::Write;
use vstd::prelude::*;
use vstd::string::StringSliceAdditionalSpecFns;
use vstd::utf8::encode_utf8_decode_utf8;

verus! {

/// Whether two names are the same, character for character.
pub fn str_eq(a: &str, b: &str) -> (same: bool)
    ensures
        same == (a@ == b@),
{
    let x = a.as_bytes();
    let y = b.as_bytes();
    proof {
        // The bytes of a string determine its characters.
        encode_utf8_decode_utf8(a@);
        encode_utf8_decode_utf8(b@);
    }
    if x.len() != y.len() {
        return false;
    }
    let mut i: usize = 0;
    while i < x.len()
        invariant
            i <= x.len(),
            x.len() == y.len(),
            x@ == a.spec_bytes(),
            y@ == b.spec_bytes(),
            forall|j: int| 0 <= j < i ==> x@[j] == y@[j],
        decreases x.len() - i,
    {
        if x[i] != y[i] {
            return false;
        }
        i += 1;
    }
    assert(x@ =~= y@);
    true
}

/// The character of one decimal digit.
pub open spec fn digit_char(d: nat) -> char
    recommends
        d < 10,
{
    (48 + d) as char
}

/// A number in decimal notation: no sign, no leading zero, `"0"` for zero.
pub open spec fn decimal_digits(n: nat) -> Seq<char>
    decreases n,
{
    if n < 10 {
        seq![digit_char(n)]
    } else {
        decimal_digits(n / 10).push(digit_char(n % 10))
    }
}

/// The name of the numbered field: the prefix, then the number in decimal.
pub open spec fn spec_indexed_name(prefix: Seq<char>, index: u8) -> Seq<char> {
    prefix + decimal_digits(index as nat)
}

/// Formats `prefix` and `index` into a `heapless::String` of 16 bytes, as
/// `core::fmt` writes a `&str` and a `u8`, and hands the text back. The
/// contract claims that the text is the prefix followed by the number in
/// decimal. The prefix must leave room for three digits, else the write
/// would fail for want of capacity.
#[verifier::external_body]
pub(crate) fn indexed_name(prefix: &str, index: u8) -> (name: String)
    requires
        prefix.is_ascii(),
        prefix@.len() + 3 <= 16,
    ensures
        name@ == spec_indexed_name(prefix@, index),
{
    let mut buf: heapless::String<16> = heapless::String::new();
    write!(buf, "{}{}", prefix, index).unwrap();
    String::from(buf.as_str())
}

} // verus!
