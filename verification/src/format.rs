//! Sizes and transfer rates as text.

use vstd::prelude::*;
use vstd::string::StringExecFns;
use crate::text::{decimal_digits, digit_char, push_decimal, string_of};

verus! {

/// Bytes in a kilobyte.
pub const KB: u64 = 1024;

/// Bytes in a megabyte.
pub const MB: u64 = 1024 * 1024;

/// Bytes in a gigabyte.
pub const GB: u64 = 1024 * 1024 * 1024;

/// `amount / unit` in hundredths, rounded to the nearest hundredth; a value
/// halfway between two hundredths goes to the even one.
pub open spec fn rounded_hundredths(amount: nat, unit: nat) -> nat {
    let scaled = amount * 100;
    let quotient = scaled / unit;
    let rest = scaled % unit;
    if 2 * rest > unit || (2 * rest == unit && quotient % 2 == 1) {
        quotient + 1
    } else {
        quotient
    }
}

/// `hundredths` written with a decimal point and two decimals.
pub open spec fn two_decimals(hundredths: nat) -> Seq<char> {
    decimal_digits(hundredths / 100) + seq![
        '.',
        digit_char((hundredths / 10) % 10),
        digit_char(hundredths % 10),
    ]
}

/// `amount` in the largest of the units GB, MB and KB that it reaches, with
/// two decimals and the unit's name; below a kilobyte, the whole number and
/// `B`. The chosen name is followed by `tail`.
pub open spec fn scaled_amount(amount: nat, tail: Seq<char>) -> Seq<char> {
    if amount >= GB {
        two_decimals(rounded_hundredths(amount, GB as nat)) + " GB"@ + tail
    } else if amount >= MB {
        two_decimals(rounded_hundredths(amount, MB as nat)) + " MB"@ + tail
    } else if amount >= KB {
        two_decimals(rounded_hundredths(amount, KB as nat)) + " KB"@ + tail
    } else {
        decimal_digits(amount) + " B"@ + tail
    }
}

/// The text of a size of `bytes` bytes.
pub open spec fn bytes_text(bytes: nat) -> Seq<char> {
    scaled_amount(bytes, Seq::empty())
}

/// The text of a rate of `bytes_per_sec` bytes per second.
pub open spec fn speed_text(bytes_per_sec: nat) -> Seq<char> {
    scaled_amount(bytes_per_sec, "/s"@)
}

/// Appends `amount / unit` with two decimals.
pub(crate) fn push_scaled(out: &mut Vec<char>, amount: u64, unit: u64)
    requires
        unit == KB || unit == MB || unit == GB,
    ensures
        final(out)@ == old(out)@ + two_decimals(rounded_hundredths(amount as nat, unit as nat)),
{
    let scaled: u128 = amount as u128 * 100;
    let unit_wide: u128 = unit as u128;
    let quotient: u128 = scaled / unit_wide;
    let rest: u128 = scaled % unit_wide;
    assert(quotient <= u64::MAX / 4) by {
        assert(quotient <= scaled / 1024) by (nonlinear_arith)
            requires
                quotient == scaled / unit_wide,
                unit_wide >= 1024,
                scaled >= 0,
        ;
    }
    let up: bool = 2 * rest > unit_wide || (2 * rest == unit_wide && quotient % 2 == 1);
    let hundredths: u64 = if up {
        (quotient + 1) as u64
    } else {
        quotient as u64
    };
    push_decimal(out, hundredths / 100);
    out.push('.');
    out.push((((hundredths / 10) % 10) as u8 + 48u8) as char);
    out.push(((hundredths % 10) as u8 + 48u8) as char);
}

/// The text of `amount` scaled to its unit, without the tail.
fn scaled_prefix(amount: u64) -> (text: String)
    ensures
        text@ == scaled_amount(amount as nat, Seq::empty()),
{
    let mut digits: Vec<char> = Vec::new();
    let unit_name: &str = if amount >= GB {
        push_scaled(&mut digits, amount, GB);
        " GB"
    } else if amount >= MB {
        push_scaled(&mut digits, amount, MB);
        " MB"
    } else if amount >= KB {
        push_scaled(&mut digits, amount, KB);
        " KB"
    } else {
        push_decimal(&mut digits, amount);
        " B"
    };
    let mut text = string_of(&digits);
    text.append(unit_name);
    text
}

/// A size in bytes as text: `1.50 GB`, `12.25 MB`, `3.00 KB`, `512 B`.
pub fn format_bytes(bytes: u64) -> (text: String)
    ensures
        text@ == bytes_text(bytes as nat),
{
    scaled_prefix(bytes)
}

/// A rate in bytes per second as text: `1.50 GB/s`, `12.25 MB/s`,
/// `3.00 KB/s`, `512 B/s`.
pub fn format_speed(bytes_per_sec: u64) -> (text: String)
    ensures
        text@ == speed_text(bytes_per_sec as nat),
{
    let mut text = scaled_prefix(bytes_per_sec);
    text.append("/s");
    text
}

} // verus!
