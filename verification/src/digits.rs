//! Digit strings: what std's unsigned integer parsing accepts and what
//! fixed-width lower-case hexadecimal formatting produces.
use vstd::prelude::*;

verus! {

/// The value of `c` as a digit in the given radix (`char::to_digit`), for radixes up to 36.
pub open spec fn digit_value(c: char, radix: nat) -> Option<nat> {
    let u = c as u32;
    let d: int = if 48 <= u <= 57 {
        u - 48
    } else if 97 <= u <= 122 {
        u - 97 + 10
    } else if 65 <= u <= 90 {
        u - 65 + 10
    } else {
        36
    };
    if d < radix {
        Some(d as nat)
    } else {
        None
    }
}

/// Every character of `s` is a digit in the radix.
pub open spec fn all_digits(s: Seq<char>, radix: nat) -> bool {
    forall|i: int| 0 <= i < s.len() ==> (#[trigger] digit_value(s[i], radix)) is Some
}

/// The number that a digit string denotes, most significant digit first.
pub open spec fn digits_value(s: Seq<char>, radix: nat) -> nat
    decreases s.len(),
{
    if s.len() == 0 {
        0
    } else {
        digits_value(s.drop_last(), radix) * radix + digit_value(s.last(), radix).unwrap_or(0)
    }
}

/// What std's `from_str_radix` (and `str::parse`) gives for an unsigned integer type
/// whose largest value is `max`: an optional leading `+`, then one or more digits of
/// the radix, whose value must not exceed `max`.
pub open spec fn parse_unsigned_spec(s: Seq<char>, radix: nat, max: nat) -> Option<nat> {
    let d = if s.len() > 0 && s[0] == '+' {
        s.drop_first()
    } else {
        s
    };
    if d.len() > 0 && all_digits(d, radix) && digits_value(d, radix) <= max {
        Some(digits_value(d, radix))
    } else {
        None
    }
}

/// The lower-case hexadecimal digit for `d < 16`.
pub open spec fn hex_char(d: nat) -> char {
    seq!['0', '1', '2', '3', '4', '5', '6', '7', '8', '9', 'a', 'b', 'c', 'd', 'e', 'f'][d as int]
}

/// `v` written in lower-case hexadecimal with exactly `w` digits (zero-padded;
/// only the low `w` digits when `v` does not fit), as `format!("{:0w$x}")` writes
/// a value that fits.
pub open spec fn lower_hex_fixed(v: nat, w: nat) -> Seq<char>
    decreases w,
{
    if w == 0 {
        Seq::empty()
    } else {
        lower_hex_fixed(v / 16, (w - 1) as nat).push(hex_char(v % 16))
    }
}

/// 16 to the power `w`.
pub open spec fn pow16(w: nat) -> nat
    decreases w,
{
    if w == 0 {
        1
    } else {
        16 * pow16((w - 1) as nat)
    }
}

/// A character that fixed-width lower-case hexadecimal formatting may produce.
pub open spec fn is_lower_hex_char(c: char) -> bool {
    let u = c as u32;
    (48 <= u <= 57) || (97 <= u <= 102)
}

pub proof fn lemma_hex_char_digit(d: nat)
    requires
        d < 16,
    ensures
        digit_value(hex_char(d), 16) == Some(d),
        is_lower_hex_char(hex_char(d)),
{
}

/// Fixed-width lower-case hexadecimal of a value that fits: `w` lower-case hex
/// digits whose value is `v`.
pub proof fn lemma_lower_hex_fixed(v: nat, w: nat)
    requires
        v < pow16(w),
    ensures
        lower_hex_fixed(v, w).len() == w,
        forall|i: int| 0 <= i < w ==> is_lower_hex_char(#[trigger] lower_hex_fixed(v, w)[i]),
        all_digits(lower_hex_fixed(v, w), 16),
        digits_value(lower_hex_fixed(v, w), 16) == v,
    decreases w,
{
    if w > 0 {
        let q = v / 16;
        let p = pow16((w - 1) as nat);
        assert(q < p) by (nonlinear_arith)
            requires
                v < 16 * p,
                q == v / 16,
        ;
        lemma_lower_hex_fixed(q, (w - 1) as nat);
        lemma_hex_char_digit(v % 16);
        let s = lower_hex_fixed(v, w);
        assert(s.drop_last() =~= lower_hex_fixed(q, (w - 1) as nat));
        assert forall|i: int| 0 <= i < w implies is_lower_hex_char(#[trigger] s[i]) by {
            if i < w - 1 {
                assert(s[i] == lower_hex_fixed(q, (w - 1) as nat)[i]);
            }
        }
        assert forall|i: int| 0 <= i < s.len() implies (#[trigger] digit_value(s[i], 16)) is Some by {
            if i < w - 1 {
                assert(s[i] == lower_hex_fixed(q, (w - 1) as nat)[i]);
            }
        }
    }
}

/// Parsing fixed-width lower-case hexadecimal gives back the value written.
pub proof fn lemma_parse_lower_hex(v: nat, w: nat, max: nat)
    requires
        v < pow16(w),
        v <= max,
        w > 0,
    ensures
        parse_unsigned_spec(lower_hex_fixed(v, w), 16, max) == Some(v),
{
    lemma_lower_hex_fixed(v, w);
    assert(is_lower_hex_char(lower_hex_fixed(v, w)[0]));
}

pub proof fn lemma_pow16_widths()
    ensures
        pow16(2) == 0x100,
        pow16(16) == 0x1_0000_0000_0000_0000,
        pow16(32) == 0x1_0000_0000_0000_0000_0000_0000_0000_0000,
{
    reveal_with_fuel(pow16, 33);
}

} // verus!
