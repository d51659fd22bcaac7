//! Trace and span identifiers, handled as the integers they are.  Parsing,
//! printing and generating them is done by the `opentelemetry` crates.
use opentelemetry::trace::{SpanId, TraceFlags, TraceId};
use opentelemetry_sdk::trace::{IdGenerator, RandomIdGenerator};
use vstd::prelude::*;

use crate::digits::{hex_char, lower_hex_fixed, parse_unsigned_spec};
use crate::text::push_char;

verus! {

/// `TraceId::from_hex` from opentelemetry, which is `u128::from_str_radix(hex, 16)`:
/// succeeds exactly when the text is an optional `+` followed by one or more
/// hexadecimal digits whose value fits in 128 bits, and then holds that value.
#[verifier::external_body]
pub(crate) fn trace_id_from_hex(hex: &str) -> (r: Option<u128>)
    ensures
        match parse_unsigned_spec(hex@, 16, u128::MAX as nat) {
            Some(v) => r == Some(v as u128),
            None => r is None,
        },
{
    match TraceId::from_hex(hex) {
        Ok(id) => Some(u128::from_be_bytes(id.to_bytes())),
        Err(_) => None,
    }
}

/// `SpanId::from_hex` from opentelemetry, which is `u64::from_str_radix(hex, 16)`:
/// succeeds exactly when the text is an optional `+` followed by one or more
/// hexadecimal digits whose value fits in 64 bits, and then holds that value.
#[verifier::external_body]
pub(crate) fn span_id_from_hex(hex: &str) -> (r: Option<u64>)
    ensures
        match parse_unsigned_spec(hex@, 16, u64::MAX as nat) {
            Some(v) => r == Some(v as u64),
            None => r is None,
        },
{
    match SpanId::from_hex(hex) {
        Ok(id) => Some(u64::from_be_bytes(id.to_bytes())),
        Err(_) => None,
    }
}

/// `u8::from_str_radix(text, 16)` from std: succeeds exactly when the text is an
/// optional `+` followed by one or more hexadecimal digits whose value fits in a byte.
#[verifier::external_body]
pub(crate) fn u8_from_hex(text: &str) -> (r: Option<u8>)
    ensures
        match parse_unsigned_spec(text@, 16, u8::MAX as nat) {
            Some(v) => r == Some(v as u8),
            None => r is None,
        },
{
    match u8::from_str_radix(text, 16) {
        Ok(b) => Some(b),
        Err(_) => None,
    }
}

/// `str::parse::<usize>` from std: succeeds exactly when the text is an optional
/// `+` followed by one or more decimal digits whose value fits in a `usize`.
#[verifier::external_body]
pub(crate) fn usize_from_decimal(text: &str) -> (r: Option<usize>)
    ensures
        match parse_unsigned_spec(text@, 10, usize::MAX as nat) {
            Some(v) => r == Some(v as usize),
            None => r is None,
        },
{
    match text.parse::<usize>() {
        Ok(n) => Some(n),
        Err(_) => None,
    }
}

/// The `Display` form of opentelemetry's `TraceId`, which writes `{:032x}`:
/// 32 lower-case hexadecimal digits.
#[verifier::external_body]
pub(crate) fn trace_id_to_hex(id: u128) -> (r: String)
    ensures
        r@ == lower_hex_fixed(id as nat, 32),
{
    TraceId::from(id).to_string()
}

/// The `Display` form of opentelemetry's `SpanId`, which writes `{:016x}`:
/// 16 lower-case hexadecimal digits.
#[verifier::external_body]
pub(crate) fn span_id_to_hex(id: u64) -> (r: String)
    ensures
        r@ == lower_hex_fixed(id as nat, 16),
{
    SpanId::from(id).to_string()
}

/// The lower-case hexadecimal digit of a value below 16.
fn hex_digit(d: u8) -> (r: char)
    requires
        d < 16,
    ensures
        r == hex_char(d as nat),
{
    let digits: [char; 16] = [
        '0', '1', '2', '3', '4', '5', '6', '7', '8', '9', 'a', 'b', 'c', 'd', 'e', 'f',
    ];
    assert(digits@ =~= seq![
        '0', '1', '2', '3', '4', '5', '6', '7', '8', '9', 'a', 'b', 'c', 'd', 'e', 'f',
    ]);
    digits[d as usize]
}

/// Trace flags in two lower-case hexadecimal digits (as `format!("{:02x}")` writes them).
pub(crate) fn flags_to_hex(flags: u8) -> (r: String)
    ensures
        r@ == lower_hex_fixed(flags as nat, 2),
{
    let mut out = String::new();
    push_char(&mut out, hex_digit(flags / 16));
    push_char(&mut out, hex_digit(flags % 16));
    proof {
        reveal_with_fuel(lower_hex_fixed, 3);
        assert(lower_hex_fixed(flags as nat / 16 / 16, 0) =~= Seq::<char>::empty());
        assert((flags as nat / 16) % 16 == flags as nat / 16);
    }
    assert(out@ =~= lower_hex_fixed(flags as nat, 2));
    out
}

/// `TraceFlags::is_sampled` from opentelemetry: whether the lowest bit (the
/// `sampled` flag) is set.
#[verifier::external_body]
pub(crate) fn trace_flags_is_sampled(flags: u8) -> (r: bool)
    ensures
        r == (flags % 2 == 1),
{
    TraceFlags::new(flags).is_sampled()
}

/// A new trace id from opentelemetry_sdk's `RandomIdGenerator::new_trace_id`.
/// The value is random: nothing is stated of it.
#[verifier::external_body]
pub fn generate_trace_id() -> u128 {
    u128::from_be_bytes(RandomIdGenerator::default().new_trace_id().to_bytes())
}

/// A new span id from opentelemetry_sdk's `RandomIdGenerator::new_span_id`.
/// The value is random: nothing is stated of it.
#[verifier::external_body]
pub fn generate_span_id() -> u64 {
    u64::from_be_bytes(RandomIdGenerator::default().new_span_id().to_bytes())
}

} // verus!
