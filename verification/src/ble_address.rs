//! The radio's device address as text.

use core::fmt::Write;
use vstd::prelude::*;

verus! {

/// The character of one hexadecimal digit, in upper case.
pub open spec fn hex_digit(d: nat) -> char
    recommends
        d < 16,
{
    if d < 10 {
        (48 + d) as char
    } else {
        (55 + d) as char
    }
}

/// A byte as two hexadecimal digits.
pub open spec fn hex_byte(b: u8) -> Seq<char> {
    seq![hex_digit((b / 16) as nat), hex_digit((b % 16) as nat)]
}

/// A device address as it is printed: the six bytes in hexadecimal, the
/// last byte of the address first, with a colon between each two.
pub open spec fn spec_ble_address(bytes: [u8; 6]) -> Seq<char> {
    hex_byte(bytes[5]) + seq![':'] + hex_byte(bytes[4]) + seq![':'] + hex_byte(bytes[3]) + seq![
        ':',
    ] + hex_byte(bytes[2]) + seq![':'] + hex_byte(bytes[1]) + seq![':'] + hex_byte(bytes[0])
}

/// Formats the six bytes into a `heapless::String` of 17 bytes, each as
/// `core::fmt` writes a `u8` under `{:02X}`, and hands the text back. The
/// contract claims that the text is the six bytes in two upper-case
/// hexadecimal digits each, last byte first, separated by colons. The text
/// is 17 bytes long, so the write does not fail for want of capacity.
#[verifier::external_body]
fn hex_address(bytes: &[u8; 6]) -> (text: String)
    ensures
        text@ == spec_ble_address(*bytes),
{
    let [h1, h2, h3, h4, h5, h6] = *bytes;
    let mut address: heapless::String<17> = heapless::String::new();
    let _ = write!(address, "{:02X}:{:02X}:{:02X}:{:02X}:{:02X}:{:02X}", h6, h5, h4, h3, h2, h1);
    String::from(address.as_str())
}

/// The text of a device address whose bytes are given as the radio holds
/// them, least significant byte first.
pub fn format_ble_address(bytes: &[u8; 6]) -> (text: String)
    ensures
        text@ == spec_ble_address(*bytes),
        text@.len() == 17,
        text@[2] == ':' && text@[5] == ':' && text@[8] == ':' && text@[11] == ':' && text@[14]
            == ':',
{
    hex_address(bytes)
}

} // verus!
