//! Transaction engine, decision side: the matching discipline that pairs
//! an inbound SysEx stream with the awaited reply.
//!
//! A response is accepted only if its total length equals the expected
//! response length and every caller-specified byte range agrees with the
//! expected template exactly.  This guards against partial or
//! concatenated SysEx fragments, and against unrelated traffic on the
//! same inbound stream, being mistaken for the awaited reply.  The
//! blocking wait, the listener and the timeout live with the transport;
//! they hand every inbound message to this module's functions and act on
//! the verdict.

use vstd::prelude::*;

verus! {

/// A half-open range `start..end` of byte offsets that the matcher holds
/// against the template.
#[derive(Clone, Copy, Debug, PartialEq, Eq, Structural)]
pub struct ByteSpan {
    pub start: usize,
    pub end: usize,
}

/// The span stays within a message of length `len`.
pub open spec fn span_in_bounds(span: ByteSpan, len: nat) -> bool {
    span.start <= span.end && span.end <= len
}

/// Every span stays within a message of length `len`.
pub open spec fn spans_in_bounds(spans: Seq<ByteSpan>, len: nat) -> bool {
    forall|k: int| 0 <= k < spans.len() ==> span_in_bounds(#[trigger] spans[k], len)
}

/// The message agrees with the template at every offset of the span.
pub open spec fn span_agrees(msg: Seq<u8>, tmpl: Seq<u8>, span: ByteSpan) -> bool {
    forall|j: int| span.start <= j < span.end ==> msg[j] == tmpl[j]
}

/// The matching discipline: the message has exactly the template's
/// length, and agrees with the template on every checked span.
pub open spec fn spec_matches(msg: Seq<u8>, tmpl: Seq<u8>, spans: Seq<ByteSpan>) -> bool {
    &&& msg.len() == tmpl.len()
    &&& forall|k: int| 0 <= k < spans.len() ==> span_agrees(msg, tmpl, #[trigger] spans[k])
}

/// Holds one inbound message against the expected template: true exactly
/// when the lengths are equal and every checked span agrees.
pub fn response_matches(msg: &Vec<u8>, tmpl: &Vec<u8>, spans: &Vec<ByteSpan>) -> (r: bool)
    requires
        spans_in_bounds(spans@, tmpl@.len()),
    ensures
        r == spec_matches(msg@, tmpl@, spans@),
{
    if msg.len() != tmpl.len() {
        return false;
    }
    let mut k: usize = 0;
    while k < spans.len()
        invariant
            msg@.len() == tmpl@.len(),
            spans_in_bounds(spans@, tmpl@.len()),
            k <= spans@.len(),
            forall|t: int| 0 <= t < k ==> span_agrees(msg@, tmpl@, #[trigger] spans@[t]),
        decreases spans@.len() - k,
    {
        let span = spans[k];
        let mut j: usize = span.start;
        while j < span.end
            invariant
                msg@.len() == tmpl@.len(),
                span_in_bounds(span, tmpl@.len()),
                k < spans@.len(),
                span == spans@[k as int],
                span.start <= j <= span.end,
                forall|t: int| span.start <= t < j ==> msg@[t] == tmpl@[t],
            decreases span.end - j,
        {
            if msg[j] != tmpl[j] {
                assert(!span_agrees(msg@, tmpl@, spans@[k as int]));
                return false;
            }
            j = j + 1;
        }
        assert(span_agrees(msg@, tmpl@, span));
        k = k + 1;
    }
    true
}

/// Header-mismatch rejection: a message that deviates from the template
/// at any offset of any checked span is not a match, whatever its length.
pub proof fn lemma_header_mismatch(msg: Seq<u8>, tmpl: Seq<u8>, spans: Seq<ByteSpan>, k: int, j: int)
    requires
        0 <= k < spans.len(),
        spans[k].start <= j < spans[k].end,
        msg[j] != tmpl[j],
    ensures
        !spec_matches(msg, tmpl, spans),
{
    assert(!span_agrees(msg, tmpl, spans[k]));
}

/// Scans an inbound stream, oldest message first, for the awaited reply:
/// the position of the first message that the matching discipline
/// accepts, or nothing when no message matches — upon which a transaction
/// can only time out.
pub fn first_match(inbound: &Vec<Vec<u8>>, tmpl: &Vec<u8>, spans: &Vec<ByteSpan>) -> (r: Option<
    usize,
>)
    requires
        spans_in_bounds(spans@, tmpl@.len()),
    ensures
        r matches Some(i) ==> {
            &&& i < inbound@.len()
            &&& spec_matches(inbound@[i as int]@, tmpl@, spans@)
            &&& forall|j: int| 0 <= j < i ==> !spec_matches(#[trigger] inbound@[j]@, tmpl@, spans@)
        },
        r is None <==> forall|j: int|
            0 <= j < inbound@.len() ==> !spec_matches(#[trigger] inbound@[j]@, tmpl@, spans@),
{
    let mut i: usize = 0;
    while i < inbound.len()
        invariant
            spans_in_bounds(spans@, tmpl@.len()),
            i <= inbound@.len(),
            forall|j: int| 0 <= j < i ==> !spec_matches(#[trigger] inbound@[j]@, tmpl@, spans@),
        decreases inbound@.len() - i,
    {
        if response_matches(&inbound[i], tmpl, spans) {
            return Some(i);
        }
        i = i + 1;
    }
    None
}

/// The template and checked spans that a get-program transaction awaits:
/// a 67-byte message opening with `F0 47 7F 75 63 00 3A`; only that fixed
/// prefix is load-bearing, every later byte carries the program itself.
pub fn program_response_filter() -> (r: (Vec<u8>, Vec<ByteSpan>))
    ensures
        r.0@.len() == 67,
        r.0@[0] == 0xF0,
        r.0@[1] == 0x47,
        r.0@[2] == 0x7F,
        r.0@[3] == 0x75,
        r.0@[4] == 0x63,
        r.0@[5] == 0x00,
        r.0@[6] == 0x3A,
        r.1@ == seq![ByteSpan { start: 0, end: 7 }],
        spans_in_bounds(r.1@, r.0@.len()),
{
    let mut tmpl: Vec<u8> = Vec::new();
    tmpl.push(0xF0);
    tmpl.push(0x47);
    tmpl.push(0x7F);
    tmpl.push(0x75);
    tmpl.push(0x63);
    tmpl.push(0x00);
    tmpl.push(0x3A);
    let mut i: usize = 7;
    while i < 67
        invariant
            7 <= i <= 67,
            tmpl@.len() == i,
            tmpl@[0] == 0xF0,
            tmpl@[1] == 0x47,
            tmpl@[2] == 0x7F,
            tmpl@[3] == 0x75,
            tmpl@[4] == 0x63,
            tmpl@[5] == 0x00,
            tmpl@[6] == 0x3A,
        decreases 67 - i,
    {
        tmpl.push(0x00);
        i = i + 1;
    }
    let mut spans: Vec<ByteSpan> = Vec::new();
    spans.push(ByteSpan { start: 0, end: 7 });
    proof {
        assert(spans@ =~= seq![ByteSpan { start: 0, end: 7 }]);
    }
    (tmpl, spans)
}

/// The template and checked spans that a get-active-program transaction
/// awaits: a 9-byte message opening with `F0 47 7F 75 64 00 01`; the slot
/// byte at offset 7 and the closing byte are left free.
pub fn active_response_filter() -> (r: (Vec<u8>, Vec<ByteSpan>))
    ensures
        r.0@ == active_template(),
        r.1@ == seq![ByteSpan { start: 0, end: 7 }],
        spans_in_bounds(r.1@, r.0@.len()),
{
    let mut tmpl: Vec<u8> = Vec::new();
    tmpl.push(0xF0);
    tmpl.push(0x47);
    tmpl.push(0x7F);
    tmpl.push(0x75);
    tmpl.push(0x64);
    tmpl.push(0x00);
    tmpl.push(0x01);
    tmpl.push(0x00);
    tmpl.push(0xF7);
    let mut spans: Vec<ByteSpan> = Vec::new();
    spans.push(ByteSpan { start: 0, end: 7 });
    proof {
        assert(tmpl@ =~= active_template());
        assert(spans@ =~= seq![ByteSpan { start: 0, end: 7 }]);
    }
    (tmpl, spans)
}

/// The 9-byte template of a get-active-program response; the slot byte at
/// offset 7 stands as 0 and is never checked.
pub open spec fn active_template() -> Seq<u8> {
    seq![0xF0u8, 0x47, 0x7F, 0x75, 0x64, 0x00, 0x01, 0x00, 0xF7]
}

/// A message that the get-active-program filter accepts is exactly one
/// that the get-active-program decoder takes apart: matching the filter
/// and decoding successfully are one and the same condition.
pub proof fn lemma_active_match_decodes(msg: Seq<u8>)
    ensures
        spec_matches(msg, active_template(), seq![ByteSpan { start: 0, end: 7 }])
            == crate::codec::active_response_ok(msg),
{
    let spans = seq![ByteSpan { start: 0, end: 7 }];
    if crate::codec::active_response_ok(msg) {
        assert forall|k: int| 0 <= k < spans.len() implies span_agrees(
            msg,
            active_template(),
            #[trigger] spans[k],
        ) by {
            assert forall|j: int| 0 <= j < 7 implies msg[j] == active_template()[j] by {
            }
        }
    }
    if spec_matches(msg, active_template(), spans) {
        assert(span_agrees(msg, active_template(), spans[0]));
        assert(msg[0] == 0xF0 && msg[1] == 0x47 && msg[2] == 0x7F && msg[3] == 0x75 && msg[4]
            == 0x64 && msg[5] == 0x00 && msg[6] == 0x01);
    }
}

} // verus!
