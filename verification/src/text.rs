//! Small verified text-rendering helpers for diagnostics.

use vstd::prelude::*;
use vstd::string::StringExecFns;

verus! {

/// The decimal digit string for `d`, a single digit.
pub open spec fn spec_digit_text(d: u8) -> Seq<char> {
    if d == 0 {
        "0"@
    } else if d == 1 {
        "1"@
    } else if d == 2 {
        "2"@
    } else if d == 3 {
        "3"@
    } else if d == 4 {
        "4"@
    } else if d == 5 {
        "5"@
    } else if d == 6 {
        "6"@
    } else if d == 7 {
        "7"@
    } else if d == 8 {
        "8"@
    } else {
        "9"@
    }
}

/// Renders a single decimal digit.
pub fn digit_text(d: u8) -> (r: &'static str)
    requires
        d < 10,
    ensures
        r@ == spec_digit_text(d),
{
    match d {
        0 => "0",
        1 => "1",
        2 => "2",
        3 => "3",
        4 => "4",
        5 => "5",
        6 => "6",
        7 => "7",
        8 => "8",
        _ => "9",
    }
}

/// The decimal rendering of a byte, without leading zeros.
pub open spec fn spec_byte_text(n: u8) -> Seq<char> {
    if n < 10 {
        spec_digit_text(n)
    } else if n < 100 {
        spec_digit_text(n / 10) + spec_digit_text(n % 10)
    } else {
        spec_digit_text(n / 100) + spec_digit_text((n / 10) % 10) + spec_digit_text(n % 10)
    }
}

/// The rendering of the bytes of `s` up to `n`, comma-separated.
pub open spec fn spec_byte_list_text(s: Seq<u8>, n: int) -> Seq<char>
    decreases n,
{
    if n <= 0 {
        Seq::empty()
    } else if n == 1 {
        spec_byte_text(s[0])
    } else {
        spec_byte_list_text(s, n - 1) + ", "@ + spec_byte_text(s[n - 1])
    }
}

/// The rendering of a byte string: its bytes in decimal, comma-separated,
/// bracketed.
pub open spec fn spec_bytes_text(s: Seq<u8>) -> Seq<char> {
    "["@ + spec_byte_list_text(s, s.len() as int) + "]"@
}

/// Renders a byte string as a bracketed list of decimal bytes.
pub fn bytes_text(bytes: &Vec<u8>) -> (r: String)
    ensures
        r@ == spec_bytes_text(bytes@),
{
    let mut out = String::from_str("[");
    let mut i: usize = 0;
    while i < bytes.len()
        invariant
            i <= bytes.len(),
            out@ == "["@ + spec_byte_list_text(bytes@, i as int),
        decreases bytes.len() - i,
    {
        if i > 0 {
            out.append(", ");
        }
        out.append(byte_text(bytes[i]).as_str());
        i += 1;
    }
    out.append("]");
    out
}

/// Renders a byte in decimal.
pub fn byte_text(n: u8) -> (r: String)
    ensures
        r@ == spec_byte_text(n),
{
    if n < 10 {
        String::from_str(digit_text(n))
    } else if n < 100 {
        String::from_str(digit_text(n / 10)).concat(digit_text(n % 10))
    } else {
        String::from_str(digit_text(n / 100)).concat(digit_text((n / 10) % 10)).concat(
            digit_text(n % 10),
        )
    }
}

} // verus!
