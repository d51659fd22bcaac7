//! W3C Trace Context: the `traceparent` header, read and written.
//!
//! A `traceparent` value has the form `VV-TTTT…-SSSS…-FF`: a two-byte version,
//! a 32-digit hexadecimal trace id, a 16-digit hexadecimal span id and two
//! hexadecimal digits of trace flags, separated by `-`.
use vstd::prelude::*;

use crate::digits::{
    lemma_lower_hex_fixed, lemma_parse_lower_hex, lemma_pow16_widths, lower_hex_fixed,
    parse_unsigned_spec,
};
use crate::ids::{
    flags_to_hex, span_id_from_hex, span_id_to_hex, trace_flags_is_sampled, trace_id_from_hex,
    trace_id_to_hex, u8_from_hex,
};
use crate::text::{
    chars_of, is_unicode_whitespace, push_char, split, split_acc, split_spec, string_of,
    trim, trim_end_spec, trim_spec, trim_start_spec, utf8_len, utf8_len_capped, views,
};

verus! {

/// W3C Trace Context header name for the main trace context.
pub const TRACEPARENT_HEADER: &'static str = "traceparent";

/// W3C Trace Context header name for vendor-specific trace state.
pub const TRACESTATE_HEADER: &'static str = "tracestate";

/// The identifying part of a span context: what a `traceparent` header carries,
/// and whether it came from a remote parent.
#[derive(Clone, Copy, Debug, PartialEq, Eq, Structural)]
pub struct SpanContextValue {
    /// 128-bit trace id; zero is the invalid id.
    pub trace_id: u128,
    /// 64-bit span id; zero is the invalid id.
    pub span_id: u64,
    /// Trace flags; the lowest bit is the `sampled` flag.
    pub trace_flags: u8,
    /// Whether the context was propagated from a remote parent.
    pub is_remote: bool,
}

impl SpanContextValue {
    /// Both ids are non-zero.
    pub open spec fn spec_is_valid(self) -> bool {
        self.trace_id != 0 && self.span_id != 0
    }

    /// The `sampled` flag is set.
    pub open spec fn spec_is_sampled(self) -> bool {
        self.trace_flags % 2 == 1
    }

    /// Whether both ids are non-zero (`SpanContext::is_valid`).
    pub fn is_valid(&self) -> (r: bool)
        ensures
            r == self.spec_is_valid(),
    {
        self.trace_id != 0 && self.span_id != 0
    }

    /// Whether the `sampled` flag is set.
    pub fn is_sampled(&self) -> (r: bool)
        ensures
            r == self.spec_is_sampled(),
    {
        trace_flags_is_sampled(self.trace_flags)
    }
}

/// The span context that a `traceparent` value denotes, if it is well formed:
/// after trimming whitespace it splits at `-` into exactly four parts of 2, 32,
/// 16 and 2 bytes; the last three parse as hexadecimal numbers that fit; and
/// neither id is zero.  The result is marked remote.
pub open spec fn spec_parse_traceparent(s: Seq<char>) -> Option<SpanContextValue> {
    let parts = split_spec(trim_spec(s), '-');
    if parts.len() == 4 && utf8_len(parts[0]) == 2 && utf8_len(parts[1]) == 32 && utf8_len(
        parts[2],
    ) == 16 && utf8_len(parts[3]) == 2 {
        let t = parse_unsigned_spec(parts[1], 16, u128::MAX as nat);
        let sp = parse_unsigned_spec(parts[2], 16, u64::MAX as nat);
        let f = parse_unsigned_spec(parts[3], 16, u8::MAX as nat);
        if t is Some && t.unwrap() != 0 && sp is Some && sp.unwrap() != 0 && f is Some {
            Some(
                SpanContextValue {
                    trace_id: t.unwrap() as u128,
                    span_id: sp.unwrap() as u64,
                    trace_flags: f.unwrap() as u8,
                    is_remote: true,
                },
            )
        } else {
            None
        }
    } else {
        None
    }
}

/// The `traceparent` text of a span context: version `00`, then the trace id in
/// 32, the span id in 16 and the flags in 2 lower-case hexadecimal digits.
pub open spec fn spec_format_traceparent(sc: SpanContextValue) -> Seq<char> {
    seq!['0', '0', '-'] + lower_hex_fixed(sc.trace_id as nat, 32) + seq!['-'] + lower_hex_fixed(
        sc.span_id as nat,
        16,
    ) + seq!['-'] + lower_hex_fixed(sc.trace_flags as nat, 2)
}

/// The `traceparent` value that announces a context: present for a valid context only.
pub open spec fn spec_inject(sc: SpanContextValue) -> Option<Seq<char>> {
    if sc.spec_is_valid() {
        Some(spec_format_traceparent(sc))
    } else {
        None
    }
}

/// W3C Trace Context propagator.
#[derive(Debug, Default)]
pub struct W3CTraceContextPropagator;

impl W3CTraceContextPropagator {
    /// Create a new W3C Trace Context propagator.
    pub fn new() -> (r: Self) {
        W3CTraceContextPropagator
    }

    /// Parse a traceparent header value.
    pub fn parse_traceparent(value: &str) -> (r: Option<SpanContextValue>)
        ensures
            r == spec_parse_traceparent(value@),
    {
        let cs = chars_of(value);
        let trimmed = trim(&cs);
        let parts = split(&trimmed, '-');
        let ghost ps = split_spec(trim_spec(value@), '-');
        assert(views(parts@) == ps);
        if parts.len() != 4 {
            return None;
        }
        assert(parts[0]@ == ps[0] && parts[1]@ == ps[1] && parts[2]@ == ps[2] && parts[3]@
            == ps[3]);
        // Validate version
        if utf8_len_capped(&parts[0], 2) != 2 {
            return None;
        }
        // Validate and parse trace ID (32 hex chars = 16 bytes)
        if utf8_len_capped(&parts[1], 32) != 32 {
            return None;
        }
        let trace_text = string_of(&parts[1]);
        let trace_id = match trace_id_from_hex(trace_text.as_str()) {
            Some(t) => t,
            None => {
                return None;
            },
        };
        if trace_id == 0 {
            return None;
        }
        // Validate and parse span ID (16 hex chars = 8 bytes)
        if utf8_len_capped(&parts[2], 16) != 16 {
            return None;
        }
        let span_text = string_of(&parts[2]);
        let span_id = match span_id_from_hex(span_text.as_str()) {
            Some(v) => v,
            None => {
                return None;
            },
        };
        if span_id == 0 {
            return None;
        }
        // Parse flags (2 hex chars = 1 byte)
        if utf8_len_capped(&parts[3], 2) != 2 {
            return None;
        }
        let flags_text = string_of(&parts[3]);
        let trace_flags = match u8_from_hex(flags_text.as_str()) {
            Some(b) => b,
            None => {
                return None;
            },
        };
        Some(SpanContextValue { trace_id, span_id, trace_flags, is_remote: true })
    }

    /// Format a traceparent header value.
    pub fn format_traceparent(span_context: &SpanContextValue) -> (r: String)
        ensures
            r@ == spec_format_traceparent(*span_context),
    {
        let mut out = String::new();
        push_char(&mut out, '0');
        push_char(&mut out, '0');
        push_char(&mut out, '-');
        let t = trace_id_to_hex(span_context.trace_id);
        out.append(t.as_str());
        push_char(&mut out, '-');
        let s = span_id_to_hex(span_context.span_id);
        out.append(s.as_str());
        push_char(&mut out, '-');
        let f = flags_to_hex(span_context.trace_flags);
        out.append(f.as_str());
        assert(out@ =~= spec_format_traceparent(*span_context));
        out
    }

    /// The `traceparent` value to inject for a span context: its formatted text
    /// when the context is valid, nothing otherwise.
    pub fn inject_traceparent(span_context: &SpanContextValue) -> (r: Option<String>)
        ensures
            match (r, spec_inject(*span_context)) {
                (Some(t), Some(u)) => t@ == u,
                (None, None) => true,
                _ => false,
            },
    {
        if span_context.is_valid() {
            Some(Self::format_traceparent(span_context))
        } else {
            None
        }
    }

    /// The remote span context that an extracted `traceparent` value denotes:
    /// none when the header is absent or malformed.
    pub fn extract_span_context(traceparent: Option<&str>) -> (r: Option<SpanContextValue>)
        ensures
            r == match traceparent {
                Some(v) => spec_parse_traceparent(v@),
                None => None,
            },
    {
        match traceparent {
            Some(v) => Self::parse_traceparent(v),
            None => None,
        }
    }

    /// The header names this propagator reads and writes.
    pub fn fields() -> (r: [&'static str; 2])
        ensures
            r@ == seq![TRACEPARENT_HEADER, TRACESTATE_HEADER],
    {
        [TRACEPARENT_HEADER, TRACESTATE_HEADER]
    }
}

/// Whether the trace a `traceparent` value denotes is sampled: false for a
/// malformed value.
pub open spec fn spec_is_sampled(s: Seq<char>) -> bool {
    match spec_parse_traceparent(s) {
        Some(sc) => sc.spec_is_sampled(),
        None => false,
    }
}

/// Check if a trace is sampled based on the traceparent header.
pub fn is_sampled(traceparent: &str) -> (r: bool)
    ensures
        r == spec_is_sampled(traceparent@),
{
    if let Some(span_context) = W3CTraceContextPropagator::parse_traceparent(traceparent) {
        span_context.is_sampled()
    } else {
        false
    }
}

/// The `traceparent` of a new root span with the given ids: version `00`, the ids
/// in 32 and 16 lower-case hexadecimal digits, and flags `01` when sampled, `00` otherwise.
pub open spec fn spec_root_traceparent(trace_id: u128, span_id: u64, sampled: bool) -> Seq<
    char,
> {
    seq!['0', '0', '-'] + lower_hex_fixed(trace_id as nat, 32) + seq!['-'] + lower_hex_fixed(
        span_id as nat,
        16,
    ) + seq!['-'] + if sampled {
        seq!['0', '1']
    } else {
        seq!['0', '0']
    }
}

/// The `traceparent` of a new root span with the given ids.
pub fn format_root_traceparent(trace_id: u128, span_id: u64, sampled: bool) -> (r: String)
    ensures
        r@ == spec_root_traceparent(trace_id, span_id, sampled),
{
    let mut out = String::new();
    push_char(&mut out, '0');
    push_char(&mut out, '0');
    push_char(&mut out, '-');
    let t = trace_id_to_hex(trace_id);
    out.append(t.as_str());
    push_char(&mut out, '-');
    let s = span_id_to_hex(span_id);
    out.append(s.as_str());
    push_char(&mut out, '-');
    push_char(&mut out, '0');
    if sampled {
        push_char(&mut out, '1');
    } else {
        push_char(&mut out, '0');
    }
    assert(out@ =~= spec_root_traceparent(trace_id, span_id, sampled));
    out
}

/// Create a traceparent header for a new root span, with freshly generated ids.
pub fn create_root_traceparent(sampled: bool) -> (r: String)
    ensures
        exists|t: u128, s: u64| r@ == spec_root_traceparent(t, s, sampled),
{
    let trace_id = crate::ids::generate_trace_id();
    let span_id = crate::ids::generate_span_id();
    format_root_traceparent(trace_id, span_id, sampled)
}

/// What log correlation reports for a span context: its trace id in 32
/// lower-case hexadecimal digits when the context is valid, 32 zeros otherwise.
pub open spec fn spec_trace_id_text(sc: SpanContextValue) -> Seq<char> {
    if sc.spec_is_valid() {
        lower_hex_fixed(sc.trace_id as nat, 32)
    } else {
        Seq::new(32, |i: int| '0')
    }
}

/// The trace id of a span context as log correlation reports it.
pub fn trace_id_text(sc: &SpanContextValue) -> (r: String)
    ensures
        r@ == spec_trace_id_text(*sc),
{
    if sc.is_valid() {
        trace_id_to_hex(sc.trace_id)
    } else {
        let mut out = String::new();
        let mut i: usize = 0;
        while i < 32
            invariant
                i <= 32,
                out@ == Seq::new(i as nat, |k: int| '0'),
            decreases 32 - i,
        {
            push_char(&mut out, '0');
            assert(out@ =~= Seq::new((i + 1) as nat, |k: int| '0'));
            i = i + 1;
        }
        out
    }
}

// ---------------------------------------------------------------------------
// Laws
// ---------------------------------------------------------------------------

proof fn lemma_split_no_sep(p: Seq<char>, sep: char, cur: Seq<char>)
    requires
        forall|i: int| 0 <= i < p.len() ==> p[i] != sep,
    ensures
        split_acc(p, sep, cur) == seq![cur + p],
    decreases p.len(),
{
    if p.len() == 0 {
        assert(cur + p =~= cur);
    } else {
        let q = p.drop_first();
        assert forall|i: int| 0 <= i < q.len() implies q[i] != sep by {
            assert(q[i] == p[i + 1]);
        }
        lemma_split_no_sep(q, sep, cur.push(p[0]));
        assert(cur.push(p[0]) + q =~= cur + p);
    }
}

proof fn lemma_split_piece(p: Seq<char>, sep: char, rest: Seq<char>, cur: Seq<char>)
    requires
        forall|i: int| 0 <= i < p.len() ==> p[i] != sep,
    ensures
        split_acc(p + seq![sep] + rest, sep, cur) == seq![cur + p] + split_acc(
            rest,
            sep,
            Seq::empty(),
        ),
    decreases p.len(),
{
    let s = p + seq![sep] + rest;
    if p.len() == 0 {
        assert(s[0] == sep);
        assert(s.drop_first() =~= rest);
        assert(cur + p =~= cur);
    } else {
        let q = p.drop_first();
        assert forall|i: int| 0 <= i < q.len() implies q[i] != sep by {
            assert(q[i] == p[i + 1]);
        }
        assert(s[0] == p[0]);
        assert(s.drop_first() =~= q + seq![sep] + rest);
        lemma_split_piece(q, sep, rest, cur.push(p[0]));
        assert(cur.push(p[0]) + q =~= cur + p);
    }
}

proof fn lemma_hex_piece(v: nat, w: nat)
    requires
        v < crate::digits::pow16(w),
    ensures
        forall|i: int|
            0 <= i < lower_hex_fixed(v, w).len() ==> (#[trigger] lower_hex_fixed(v, w)[i]) != '-'
                && !is_unicode_whitespace(lower_hex_fixed(v, w)[i]) && (lower_hex_fixed(
                v,
                w,
            )[i] as u32) < 0x80,
        utf8_len(lower_hex_fixed(v, w)) == w,
        lower_hex_fixed(v, w).len() == w,
{
    lemma_lower_hex_fixed(v, w);
    crate::text::lemma_utf8_len_ascii(lower_hex_fixed(v, w));
}

/// Formatting a valid span context and parsing the text back gives the same
/// ids and flags, marked as coming from a remote parent.
pub proof fn lemma_parse_format_roundtrip(sc: SpanContextValue)
    requires
        sc.spec_is_valid(),
    ensures
        spec_parse_traceparent(spec_format_traceparent(sc)) == Some(
            SpanContextValue { is_remote: true, ..sc },
        ),
{
    lemma_pow16_widths();
    let a = seq!['0', '0'];
    let b = lower_hex_fixed(sc.trace_id as nat, 32);
    let c = lower_hex_fixed(sc.span_id as nat, 16);
    let d = lower_hex_fixed(sc.trace_flags as nat, 2);
    lemma_hex_piece(sc.trace_id as nat, 32);
    lemma_hex_piece(sc.span_id as nat, 16);
    lemma_hex_piece(sc.trace_flags as nat, 2);
    let text = spec_format_traceparent(sc);
    assert(text =~= a + seq!['-'] + (b + seq!['-'] + (c + seq!['-'] + d)));
    // No whitespace at either end.
    assert(text[0] == '0');
    assert(trim_start_spec(text) == text);
    assert(text.last() == d[1]);
    assert(trim_end_spec(text) == text);
    assert(trim_spec(text) == text);
    // Four pieces.
    lemma_split_piece(a, '-', b + seq!['-'] + (c + seq!['-'] + d), Seq::empty());
    lemma_split_piece(b, '-', c + seq!['-'] + d, Seq::empty());
    lemma_split_piece(c, '-', d, Seq::empty());
    lemma_split_no_sep(d, '-', Seq::empty());
    let parts = split_spec(text, '-');
    assert(Seq::<char>::empty() + a =~= a);
    assert(Seq::<char>::empty() + b =~= b);
    assert(Seq::<char>::empty() + c =~= c);
    assert(Seq::<char>::empty() + d =~= d);
    assert(parts =~= seq![a, b, c, d]);
    assert(utf8_len(a) == 2) by {
        crate::text::lemma_utf8_len_ascii(a);
    }
    lemma_parse_lower_hex(sc.trace_id as nat, 32, u128::MAX as nat);
    lemma_parse_lower_hex(sc.span_id as nat, 16, u64::MAX as nat);
    lemma_parse_lower_hex(sc.trace_flags as nat, 2, u8::MAX as nat);
}

/// A root `traceparent` is the formatted text of the context with flags 1 or 0;
/// with non-zero ids it parses back to those ids, sampled exactly when asked for.
pub proof fn lemma_root_traceparent(trace_id: u128, span_id: u64, sampled: bool)
    ensures
        spec_root_traceparent(trace_id, span_id, sampled) == spec_format_traceparent(
            SpanContextValue {
                trace_id,
                span_id,
                trace_flags: if sampled {
                    1
                } else {
                    0
                },
                is_remote: false,
            },
        ),
        trace_id != 0 && span_id != 0 ==> spec_parse_traceparent(
            spec_root_traceparent(trace_id, span_id, sampled),
        ) == Some(
            SpanContextValue {
                trace_id,
                span_id,
                trace_flags: if sampled {
                    1
                } else {
                    0
                },
                is_remote: true,
            },
        ),
        trace_id != 0 && span_id != 0 ==> spec_is_sampled(
            spec_root_traceparent(trace_id, span_id, sampled),
        ) == sampled,
{
    let f: u8 = if sampled {
        1
    } else {
        0
    };
    let sc = SpanContextValue { trace_id, span_id, trace_flags: f, is_remote: false };
    assert(lower_hex_fixed(f as nat, 2) =~= if sampled {
        seq!['0', '1']
    } else {
        seq!['0', '0']
    }) by {
        assert(lower_hex_fixed(f as nat / 16, 1) =~= seq!['0']) by {
            assert(lower_hex_fixed(0, 0) =~= Seq::<char>::empty());
        }
    }
    assert(spec_root_traceparent(trace_id, span_id, sampled) =~= spec_format_traceparent(sc));
    if trace_id != 0 && span_id != 0 {
        lemma_parse_format_roundtrip(sc);
    }
}

/// The reported trace id is always 32 lower-case hexadecimal digits; without a
/// valid context it is the text of the all-zero (invalid) trace id.
pub proof fn lemma_trace_id_text_shape(sc: SpanContextValue)
    ensures
        spec_trace_id_text(sc).len() == 32,
        forall|i: int|
            0 <= i < 32 ==> crate::digits::is_lower_hex_char(#[trigger] spec_trace_id_text(sc)[i]),
        !sc.spec_is_valid() ==> spec_trace_id_text(sc) == lower_hex_fixed(0, 32),
{
    lemma_pow16_widths();
    lemma_lower_hex_fixed(sc.trace_id as nat, 32);
    lemma_lower_hex_fixed(0, 32);
    if !sc.spec_is_valid() {
        lemma_zero_hex(32);
        assert(spec_trace_id_text(sc) =~= lower_hex_fixed(0, 32));
    }
}

proof fn lemma_zero_hex(w: nat)
    ensures
        lower_hex_fixed(0, w).len() == w,
        forall|i: int| 0 <= i < w ==> lower_hex_fixed(0, w)[i] == '0',
    decreases w,
{
    if w > 0 {
        lemma_zero_hex((w - 1) as nat);
        let s = lower_hex_fixed(0, w);
        assert forall|i: int| 0 <= i < w implies s[i] == '0' by {
            if i < w - 1 {
                assert(s[i] == lower_hex_fixed(0, (w - 1) as nat)[i]);
            }
        }
    }
}

/// Whatever a `traceparent` value parses to is a valid context from a remote parent.
pub proof fn lemma_parsed_context_is_valid_remote(s: Seq<char>)
    ensures
        spec_parse_traceparent(s) matches Some(sc) ==> sc.spec_is_valid() && sc.is_remote,
{
}

/// Injecting a valid context and extracting the header again gives the context back.
pub proof fn lemma_inject_extract_roundtrip(sc: SpanContextValue)
    requires
        sc.spec_is_valid(),
    ensures
        spec_inject(sc) matches Some(t) && spec_parse_traceparent(t) == Some(
            SpanContextValue { is_remote: true, ..sc },
        ),
{
    lemma_parse_format_roundtrip(sc);
}

/// The sampled bit survives formatting: a formatted valid context reads as
/// sampled exactly when its flags say so.
pub proof fn lemma_is_sampled_of_format(sc: SpanContextValue)
    requires
        sc.spec_is_valid(),
    ensures
        spec_is_sampled(spec_format_traceparent(sc)) == sc.spec_is_sampled(),
{
    lemma_parse_format_roundtrip(sc);
}

/// The sampled flag is the lowest bit of the flags byte, and only that bit: a
/// context reads as sampled exactly when `flags & 1` is set, so flags that
/// differ in other bits alone (such as `02` and `00`, or `03` and `01`) read
/// alike.
pub proof fn lemma_sampled_is_lowest_bit(a: SpanContextValue, b: SpanContextValue)
    ensures
        a.spec_is_sampled() <==> (a.trace_flags & 1u8) == 1u8,
        (a.trace_flags & 1u8) == (b.trace_flags & 1u8) ==> (a.spec_is_sampled()
            <==> b.spec_is_sampled()),
{
    let fa = a.trace_flags;
    let fb = b.trace_flags;
    assert((fa % 2 == 1) <==> ((fa & 1u8) == 1u8)) by (bit_vector);
    assert((fb % 2 == 1) <==> ((fb & 1u8) == 1u8)) by (bit_vector);
}

/// A `traceparent` value reads as sampled exactly when it parses and the
/// lowest bit of its flags byte is set.
pub proof fn lemma_header_sampled_is_lowest_bit(s: Seq<char>)
    ensures
        spec_is_sampled(s) <==> (spec_parse_traceparent(s) matches Some(sc) && (sc.trace_flags
            & 1u8) == 1u8),
{
    if let Some(sc) = spec_parse_traceparent(s) {
        lemma_sampled_is_lowest_bit(sc, sc);
    }
}

} // verus!
