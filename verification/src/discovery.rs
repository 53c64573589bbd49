//! Discovery flow, decision side: which identify replies mark an endpoint
//! pair as the target device.
//!
//! The transport sends the identify request out of every enumerated
//! endpoint and collects, per candidate, the reply that arrived within
//! the per-candidate deadline, if any.  This module holds each reply
//! against the device family's identity template and keeps the
//! candidates, in enumeration order; the first one is the default
//! selection.  Only the manufacturer, family and model offsets of the
//! template are load-bearing: serial- and version-like bytes may vary
//! from device to device and are accepted as they come.

use crate::engine::ByteSpan;
use crate::engine::response_matches;
use crate::engine::spans_in_bounds;
use crate::engine::spec_matches;
use vstd::prelude::*;

verus! {

/// The 35-byte identify-response template.  Only the offsets named by
/// `identity_spans` are ever compared.
pub open spec fn identity_template() -> Seq<u8> {
    seq![
        0xF0u8,
        0x7E,
        0x00,
        0x06,
        0x02,
        0x47,
        0x75,
        0x00,
        0x19,
        0x00,
        0x00,
        0x00,
        0x66,
        0x7F,
        0x00,
        0x00,
        0x00,
        0x00,
        0x00,
        0x00,
        0x00,
        0x00,
        0x00,
        0x00,
        0x00,
        0x00,
        0x00,
        0x00,
        0x00,
        0x00,
        0x00,
        0x00,
        0x00,
        0x00,
        0xF7,
    ]
}

/// The load-bearing offsets of an identify response: the SysEx opening,
/// the manufacturer/family/model block, and the reserved block that the
/// device leaves at zero.  Offsets 2 and 13 carry bytes the device may
/// vary and stand in no span.
pub open spec fn identity_spans() -> Seq<ByteSpan> {
    seq![
        ByteSpan { start: 0, end: 2 },
        ByteSpan { start: 3, end: 13 },
        ByteSpan { start: 14, end: 20 },
    ]
}

/// An inbound message identifies the target device: it has the exact
/// length of an identify response and agrees with the identity template
/// on every load-bearing span.
pub open spec fn identity_accepted(s: Seq<u8>) -> bool {
    spec_matches(s, identity_template(), identity_spans())
}

/// Builds the identity template and its checked spans.
pub fn identity_filter() -> (r: (Vec<u8>, Vec<ByteSpan>))
    ensures
        r.0@ == identity_template(),
        r.1@ == identity_spans(),
        spans_in_bounds(r.1@, r.0@.len()),
{
    let mut tmpl: Vec<u8> = Vec::new();
    tmpl.push(0xF0);
    tmpl.push(0x7E);
    tmpl.push(0x00);
    tmpl.push(0x06);
    tmpl.push(0x02);
    tmpl.push(0x47);
    tmpl.push(0x75);
    tmpl.push(0x00);
    tmpl.push(0x19);
    tmpl.push(0x00);
    tmpl.push(0x00);
    tmpl.push(0x00);
    tmpl.push(0x66);
    tmpl.push(0x7F);
    let mut i: usize = 14;
    while i < 34
        invariant
            14 <= i <= 34,
            tmpl@.len() == i,
            forall|j: int| 0 <= j < i ==> tmpl@[j] == identity_template()[j],
        decreases 34 - i,
    {
        tmpl.push(0x00);
        i = i + 1;
    }
    tmpl.push(0xF7);
    let mut spans: Vec<ByteSpan> = Vec::new();
    spans.push(ByteSpan { start: 0, end: 2 });
    spans.push(ByteSpan { start: 3, end: 13 });
    spans.push(ByteSpan { start: 14, end: 20 });
    proof {
        assert(tmpl@ =~= identity_template());
        assert(spans@ =~= identity_spans());
    }
    (tmpl, spans)
}

/// Holds one inbound message against the identity template.
pub fn check_info(msg: &Vec<u8>) -> (r: bool)
    ensures
        r == identity_accepted(msg@),
{
    let (tmpl, spans) = identity_filter();
    response_matches(msg, &tmpl, &spans)
}

/// The reply gathered for one candidate, if any arrived in time,
/// identifies the target device.
pub open spec fn reply_accepted(reply: Option<Vec<u8>>) -> bool {
    match reply {
        Some(m) => identity_accepted(m@),
        None => false,
    }
}

/// Sifts the identify replies gathered per enumerated endpoint: the
/// positions whose reply identifies the target device, in enumeration
/// order and without repetition.  The first entry, where there is one,
/// is the default device selection.
pub fn discover_candidates(replies: &Vec<Option<Vec<u8>>>) -> (r: Vec<usize>)
    ensures
        forall|t: int|
            0 <= t < r@.len() ==> (#[trigger] r@[t]) < replies@.len() && reply_accepted(
                replies@[r@[t] as int],
            ),
        forall|t1: int, t2: int| 0 <= t1 < t2 < r@.len() ==> r@[t1] < r@[t2],
        forall|j: int|
            0 <= j < replies@.len() && reply_accepted(#[trigger] replies@[j]) ==> r@.contains(
                j as usize,
            ),
{
    let mut out: Vec<usize> = Vec::new();
    let mut i: usize = 0;
    while i < replies.len()
        invariant
            i <= replies@.len(),
            forall|t: int|
                0 <= t < out@.len() ==> (#[trigger] out@[t]) < i && reply_accepted(
                    replies@[out@[t] as int],
                ),
            forall|t1: int, t2: int| 0 <= t1 < t2 < out@.len() ==> out@[t1] < out@[t2],
            forall|j: int|
                0 <= j < i && reply_accepted(#[trigger] replies@[j]) ==> out@.contains(j as usize),
        decreases replies@.len() - i,
    {
        let accepted = match &replies[i] {
            Some(m) => check_info(m),
            None => false,
        };
        if accepted {
            let ghost before = out@;
            out.push(i);
            proof {
                assert(out@[out@.len() - 1] == i);
                assert forall|j: int|
                    0 <= j <= i && reply_accepted(#[trigger] replies@[j]) implies out@.contains(
                    j as usize,
                ) by {
                    if j < i {
                        let t = choose|t: int| 0 <= t < before.len() && before[t] == j as usize;
                        assert(out@[t] == j as usize);
                    } else {
                        assert(out@[out@.len() - 1] == j as usize);
                    }
                }
            }
        }
        i = i + 1;
    }
    out
}

} // verus!
