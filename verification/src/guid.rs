//! Vendor and product identifiers inside a device GUID.
//!
//! A GUID is a string of hexadecimal digits. The vendor identifier is read
//! from characters 8 to 12 and the product identifier from characters 12 to
//! 16, each as a four-digit hexadecimal number, most significant digit first.

use vstd::prelude::*;
use vstd::string::StrSliceExecFns;

verus! {

/// First character of the vendor identifier window.
pub const VENDOR_START: usize = 8;

/// First character of the product identifier window.
pub const PRODUCT_START: usize = 12;

/// Number of characters in an identifier window.
pub const FIELD_WIDTH: usize = 4;

/// Value of a hexadecimal digit, in either case; `None` for any other
/// character.
pub open spec fn hex_digit_value(c: char) -> Option<int> {
    if '0' <= c <= '9' {
        Some(c as int - '0' as int)
    } else if 'a' <= c <= 'f' {
        Some(c as int - 'a' as int + 10)
    } else if 'A' <= c <= 'F' {
        Some(c as int - 'A' as int + 10)
    } else {
        None
    }
}

/// Value of a run of hexadecimal digits, most significant first; `None` as
/// soon as one character is no hexadecimal digit. The empty run has value 0.
pub open spec fn hex_value(digits: Seq<char>) -> Option<int>
    decreases digits.len(),
{
    if digits.len() == 0 {
        Some(0)
    } else {
        match (hex_value(digits.drop_last()), hex_digit_value(digits.last())) {
            (Some(high), Some(low)) => Some(high * 16 + low),
            _ => None,
        }
    }
}

/// The four-digit identifier that starts at character `start` of `guid`:
/// `None` when the string ends before the window does or the window holds
/// anything but hexadecimal digits.
pub open spec fn guid_field(guid: Seq<char>, start: int) -> Option<u16> {
    if 0 <= start && start + FIELD_WIDTH <= guid.len() {
        match hex_value(guid.subrange(start, start + FIELD_WIDTH)) {
            Some(value) => Some(value as u16),
            None => None,
        }
    } else {
        None
    }
}

/// Value of one hexadecimal digit.
pub fn parse_hex_digit(c: char) -> (value: Option<u8>)
    ensures
        value is Some <==> hex_digit_value(c) is Some,
        value is Some ==> value.unwrap() == hex_digit_value(c).unwrap(),
        value is Some ==> value.unwrap() < 16,
{
    if '0' <= c && c <= '9' {
        Some((c as u32 - '0' as u32) as u8)
    } else if 'a' <= c && c <= 'f' {
        Some((c as u32 - 'a' as u32 + 10) as u8)
    } else if 'A' <= c && c <= 'F' {
        Some((c as u32 - 'A' as u32 + 10) as u8)
    } else {
        None
    }
}

/// A run of `n` hexadecimal digits has a value below `16^n`; stated for the
/// widths up to four that the identifier windows use.
pub proof fn lemma_hex_value_bound(digits: Seq<char>)
    requires
        digits.len() <= 4,
        hex_value(digits) is Some,
    ensures
        0 <= hex_value(digits).unwrap(),
        digits.len() == 0 ==> hex_value(digits).unwrap() < 1,
        digits.len() == 1 ==> hex_value(digits).unwrap() < 16,
        digits.len() == 2 ==> hex_value(digits).unwrap() < 256,
        digits.len() == 3 ==> hex_value(digits).unwrap() < 4096,
        digits.len() == 4 ==> hex_value(digits).unwrap() < 65536,
    decreases digits.len(),
{
    if digits.len() > 0 {
        lemma_hex_value_bound(digits.drop_last());
    }
}

/// Reads the four-digit hexadecimal identifier that starts at character
/// `start` of `guid`.
pub fn parse_guid_field(guid: &str, start: usize) -> (field: Option<u16>)
    ensures
        field == guid_field(guid@, start as int),
{
    let len: usize = guid.unicode_len();
    if len < FIELD_WIDTH || start > len - FIELD_WIDTH {
        return None;
    }
    let ghost window = guid@.subrange(start as int, start as int + FIELD_WIDTH as int);
    let mut value: u16 = 0;
    let mut i: usize = 0;
    while i < FIELD_WIDTH
        invariant
            i <= FIELD_WIDTH,
            start + FIELD_WIDTH <= len,
            len == guid@.len(),
            window == guid@.subrange(start as int, start as int + FIELD_WIDTH as int),
            hex_value(window.take(i as int)) == Some(value as int),
        decreases FIELD_WIDTH - i,
    {
        let c = guid.get_char(start + i);
        proof {
            assert(window.take(i as int + 1).drop_last() == window.take(i as int));
            assert(window.take(i as int + 1).last() == c);
            lemma_hex_value_bound(window.take(i as int));
        }
        match parse_hex_digit(c) {
            Some(digit) => {
                value = value * 16 + digit as u16;
            },
            None => {
                proof {
                    lemma_hex_prefix_fails(window, i as int + 1);
                }
                return None;
            },
        }
        i += 1;
    }
    proof {
        assert(window.take(FIELD_WIDTH as int) == window);
    }
    Some(value)
}

/// Once a prefix of a run has no value, the whole run has none.
pub proof fn lemma_hex_prefix_fails(digits: Seq<char>, n: int)
    requires
        0 <= n <= digits.len(),
        hex_value(digits.take(n)) is None,
    ensures
        hex_value(digits) is None,
    decreases digits.len() - n,
{
    if n < digits.len() {
        assert(digits.take(n + 1).drop_last() == digits.take(n));
        lemma_hex_prefix_fails(digits, n + 1);
    } else {
        assert(digits.take(n) == digits);
    }
}

/// Vendor identifier of a GUID: characters 8 to 12.
pub fn parse_vendor_id(guid: &str) -> (vendor: Option<u16>)
    ensures
        vendor == guid_field(guid@, 8),
{
    parse_guid_field(guid, VENDOR_START)
}

/// Product identifier of a GUID: characters 12 to 16.
pub fn parse_product_id(guid: &str) -> (product: Option<u16>)
    ensures
        product == guid_field(guid@, 12),
{
    parse_guid_field(guid, PRODUCT_START)
}

} // verus!
