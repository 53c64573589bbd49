//! Wire codec: pure, stateless transforms between the device's `Program`
//! record and the SysEx byte payloads that carry it, plus the small fixed
//! request messages (identify, get/set active program, get/set program).
//!
//! All multi-byte messages begin with `0xF0` and end with `0xF7`; every
//! data byte of a well-formed program lies in `0..=127`.  The codec never
//! reads past a message's length: each decoder checks the format's exact
//! expected length before touching any fixed offset, and rejects anything
//! else as a malformed response.

use vstd::prelude::*;

verus! {

/// One of the 8 physical pads of a program.
#[derive(Clone, Copy, Debug, PartialEq, Eq, Structural)]
pub struct Pad {
    pub note: u8,
    pub program_change: u8,
    pub control_change: u8,
    pub toggle: bool,
}

/// One of the 8 physical knobs of a program.
#[derive(Clone, Copy, Debug, PartialEq, Eq, Structural)]
pub struct Knob {
    pub control_change: u8,
    pub low: u8,
    pub high: u8,
}

/// One of the device's four configuration slots: a MIDI channel, 8 pads
/// and 8 knobs.
#[derive(Debug, PartialEq)]
pub struct Program {
    pub channel: u8,
    pub pads: Vec<Pad>,
    pub knobs: Vec<Knob>,
}

/// A matched response that nevertheless failed the fixed-length or
/// fixed-field decode: a fatal protocol-assumption violation for the call.
#[derive(Clone, Copy, Debug, PartialEq, Eq, Structural)]
pub enum WireError {
    MalformedResponse,
}

/// The four message kinds of the device protocol, each with its opcode
/// byte at offset 4 of the SysEx frame.
#[derive(Clone, Copy, Debug, PartialEq, Eq, Structural)]
pub enum LPD8Message {
    UploadProgram,
    SetActiveProgram,
    DownloadProgram,
    GetActiveProgram,
}

impl LPD8Message {
    /// The opcode byte of this message kind.
    pub open spec fn spec_pattern(self) -> u8 {
        match self {
            LPD8Message::UploadProgram => 0x61,
            LPD8Message::SetActiveProgram => 0x62,
            LPD8Message::DownloadProgram => 0x63,
            LPD8Message::GetActiveProgram => 0x64,
        }
    }

    pub fn to_pattern(&self) -> (b: u8)
        ensures
            b == self.spec_pattern(),
    {
        match self {
            LPD8Message::UploadProgram => 0x61,
            LPD8Message::SetActiveProgram => 0x62,
            LPD8Message::DownloadProgram => 0x63,
            LPD8Message::GetActiveProgram => 0x64,
        }
    }
}

impl Pad {
    /// Every data byte of a pad fits in a SysEx data byte.
    pub open spec fn in_range(self) -> bool {
        self.note <= 127 && self.program_change <= 127 && self.control_change <= 127
    }
}

impl Knob {
    /// Every data byte of a knob fits in a SysEx data byte.
    pub open spec fn in_range(self) -> bool {
        self.control_change <= 127 && self.low <= 127 && self.high <= 127
    }
}

impl Program {
    /// Structural well-formedness: exactly 8 pads and 8 knobs.
    pub open spec fn wf(self) -> bool {
        self.pads@.len() == 8 && self.knobs@.len() == 8
    }

    /// Every data byte of the program lies in the SysEx data range 0..=127.
    pub open spec fn in_range(self) -> bool {
        &&& self.channel <= 127
        &&& forall|i: int| 0 <= i < self.pads@.len() ==> (#[trigger] self.pads@[i]).in_range()
        &&& forall|i: int| 0 <= i < self.knobs@.len() ==> (#[trigger] self.knobs@[i]).in_range()
    }

    /// The all-zero configuration every slot starts from.
    pub open spec fn is_default(self) -> bool {
        &&& self.wf()
        &&& self.channel == 0
        &&& forall|i: int|
            0 <= i < 8 ==> self.pads@[i] == (Pad {
                note: 0,
                program_change: 0,
                control_change: 0,
                toggle: false,
            })
        &&& forall|i: int|
            0 <= i < 8 ==> self.knobs@[i] == (Knob { control_change: 0, low: 0, high: 0 })
    }
}

impl Default for Pad {
    /// The all-zero pad: no note, no program change, no control change,
    /// momentary (non-toggling) behaviour.
    fn default() -> (p: Pad)
        ensures
            p == (Pad { note: 0, program_change: 0, control_change: 0, toggle: false }),
    {
        Pad { note: 0, program_change: 0, control_change: 0, toggle: false }
    }
}

impl Default for Knob {
    /// The all-zero knob.
    fn default() -> (k: Knob)
        ensures
            k == (Knob { control_change: 0, low: 0, high: 0 }),
    {
        Knob { control_change: 0, low: 0, high: 0 }
    }
}

impl Default for Program {
    /// The all-zero program: channel 0, 8 default pads, 8 default knobs.
    fn default() -> (p: Program)
        ensures
            p.is_default(),
            p.in_range(),
    {
        let mut pads: Vec<Pad> = Vec::new();
        let mut knobs: Vec<Knob> = Vec::new();
        let mut i: usize = 0;
        while i < 8
            invariant
                i <= 8,
                pads@.len() == i,
                knobs@.len() == i,
                forall|j: int| 0 <= j < i ==> pads@[j] == (Pad {
                    note: 0,
                    program_change: 0,
                    control_change: 0,
                    toggle: false,
                }),
                forall|j: int| 0 <= j < i ==> knobs@[j] == (Knob {
                    control_change: 0,
                    low: 0,
                    high: 0,
                }),
            decreases 8 - i,
        {
            pads.push(Pad::default());
            knobs.push(Knob::default());
            i = i + 1;
        }
        Program { channel: 0, pads, knobs }
    }
}

impl Clone for Program {
    /// A field-for-field copy of the program.
    fn clone(&self) -> (r: Program)
        ensures
            r.channel == self.channel,
            r.pads@ == self.pads@,
            r.knobs@ == self.knobs@,
    {
        let mut pads: Vec<Pad> = Vec::new();
        let mut knobs: Vec<Knob> = Vec::new();
        let mut i: usize = 0;
        while i < self.pads.len()
            invariant
                i <= self.pads@.len(),
                pads@ =~= self.pads@.subrange(0, i as int),
            decreases self.pads@.len() - i,
        {
            pads.push(self.pads[i]);
            i = i + 1;
        }
        let mut j: usize = 0;
        while j < self.knobs.len()
            invariant
                j <= self.knobs@.len(),
                knobs@ =~= self.knobs@.subrange(0, j as int),
            decreases self.knobs@.len() - j,
        {
            knobs.push(self.knobs[j]);
            j = j + 1;
        }
        proof {
            assert(pads@ =~= self.pads@);
            assert(knobs@ =~= self.knobs@);
        }
        Program { channel: self.channel, pads, knobs }
    }
}

/// The 4 payload bytes of one pad: note, program change, control change,
/// and the toggle flag encoded as 1 or 0.
pub open spec fn pad_group(p: Pad) -> Seq<u8> {
    seq![
        p.note,
        p.program_change,
        p.control_change,
        if p.toggle {
            1u8
        } else {
            0u8
        },
    ]
}

/// The 3 payload bytes of one knob: control change, low bound, high bound.
pub open spec fn knob_group(k: Knob) -> Seq<u8> {
    seq![k.control_change, k.low, k.high]
}

/// The pad section of a program payload: the 4-byte groups of the pads,
/// in order.
pub open spec fn pads_bytes(pads: Seq<Pad>) -> Seq<u8>
    decreases pads.len(),
{
    if pads.len() == 0 {
        Seq::empty()
    } else {
        pads_bytes(pads.drop_last()) + pad_group(pads.last())
    }
}

/// The knob section of a program payload: the 3-byte groups of the knobs,
/// in order.
pub open spec fn knobs_bytes(knobs: Seq<Knob>) -> Seq<u8>
    decreases knobs.len(),
{
    if knobs.len() == 0 {
        Seq::empty()
    } else {
        knobs_bytes(knobs.drop_last()) + knob_group(knobs.last())
    }
}

pub proof fn lemma_pads_bytes_len(pads: Seq<Pad>)
    ensures
        pads_bytes(pads).len() == 4 * pads.len(),
    decreases pads.len(),
{
    if pads.len() > 0 {
        lemma_pads_bytes_len(pads.drop_last());
    }
}

pub proof fn lemma_knobs_bytes_len(knobs: Seq<Knob>)
    ensures
        knobs_bytes(knobs).len() == 3 * knobs.len(),
    decreases knobs.len(),
{
    if knobs.len() > 0 {
        lemma_knobs_bytes_len(knobs.drop_last());
    }
}

/// Where the 4 bytes of pad `i` stand within the pad section.
pub proof fn lemma_pads_bytes_index(pads: Seq<Pad>, i: int)
    requires
        0 <= i < pads.len(),
    ensures
        pads_bytes(pads).len() == 4 * pads.len(),
        pads_bytes(pads)[4 * i] == pads[i].note,
        pads_bytes(pads)[4 * i + 1] == pads[i].program_change,
        pads_bytes(pads)[4 * i + 2] == pads[i].control_change,
        pads_bytes(pads)[4 * i + 3] == (if pads[i].toggle {
            1u8
        } else {
            0u8
        }),
    decreases pads.len(),
{
    lemma_pads_bytes_len(pads);
    lemma_pads_bytes_len(pads.drop_last());
    if i < pads.len() - 1 {
        lemma_pads_bytes_index(pads.drop_last(), i);
    }
}

/// Where the 3 bytes of knob `i` stand within the knob section.
pub proof fn lemma_knobs_bytes_index(knobs: Seq<Knob>, i: int)
    requires
        0 <= i < knobs.len(),
    ensures
        knobs_bytes(knobs).len() == 3 * knobs.len(),
        knobs_bytes(knobs)[3 * i] == knobs[i].control_change,
        knobs_bytes(knobs)[3 * i + 1] == knobs[i].low,
        knobs_bytes(knobs)[3 * i + 2] == knobs[i].high,
    decreases knobs.len(),
{
    lemma_knobs_bytes_len(knobs);
    lemma_knobs_bytes_len(knobs.drop_last());
    if i < knobs.len() - 1 {
        lemma_knobs_bytes_index(knobs.drop_last(), i);
    }
}

/// The bytes of a get-program request for a slot: `F0 47 7F 75 63 00 01
/// <slot> F7`.
pub open spec fn program_request_bytes(slot: u8) -> Seq<u8> {
    seq![0xF0u8, 0x47, 0x7F, 0x75, 0x63, 0x00, 0x01, slot, 0xF7]
}

/// The bytes of a set-active-program request: `F0 47 7F 75 62 00 01
/// <slot> F7`.
pub open spec fn set_active_bytes(slot: u8) -> Seq<u8> {
    seq![0xF0u8, 0x47, 0x7F, 0x75, 0x62, 0x00, 0x01, slot, 0xF7]
}

/// The bytes of a get-active-program request: `F0 47 7F 75 64 00 00 F7`.
pub open spec fn get_active_bytes() -> Seq<u8> {
    seq![0xF0u8, 0x47, 0x7F, 0x75, 0x64, 0x00, 0x00, 0xF7]
}

/// The bytes of the universal identify request: `F0 7E 00 06 01 F7`.
pub open spec fn identify_request_bytes() -> Seq<u8> {
    seq![0xF0u8, 0x7E, 0x00, 0x06, 0x01, 0xF7]
}

/// The 9 bytes that precede the pad section of a program upload.
pub open spec fn upload_prefix(slot: u8, channel: u8) -> Seq<u8> {
    seq![0xF0u8, 0x47, 0x7F, 0x75, 0x61, 0x00, 0x3A, slot, channel]
}

/// The 9 bytes that precede the pad section of a program response.
pub open spec fn response_prefix(slot: u8, channel: u8) -> Seq<u8> {
    seq![0xF0u8, 0x47, 0x7F, 0x75, 0x63, 0x00, 0x3A, slot, channel]
}

/// The full 66-byte program upload message.
pub open spec fn upload_bytes(slot: u8, p: Program) -> Seq<u8> {
    upload_prefix(slot, p.channel) + pads_bytes(p.pads@) + knobs_bytes(p.knobs@) + seq![0xF7u8]
}

/// The full 67-byte program response carrying the same field layout as an
/// upload: channel at offset 8, pads at 9..41, knobs at 41..65.  The
/// decoder reads none of the two trailing bytes beyond the length check.
pub open spec fn response_bytes(slot: u8, p: Program) -> Seq<u8> {
    response_prefix(slot, p.channel) + pads_bytes(p.pads@) + knobs_bytes(p.knobs@) + seq![
        0x00u8,
        0xF7,
    ]
}

/// Builds the get-program request for a slot.
pub fn encode_program_request(slot: u8) -> (r: Vec<u8>)
    requires
        1 <= slot <= 4,
    ensures
        r@ == program_request_bytes(slot),
{
    let mut out: Vec<u8> = Vec::new();
    out.push(0xF0);
    out.push(0x47);
    out.push(0x7F);
    out.push(0x75);
    out.push(0x63);
    out.push(0x00);
    out.push(0x01);
    out.push(slot);
    out.push(0xF7);
    proof {
        assert(out@ =~= program_request_bytes(slot));
    }
    out
}

/// Builds the one-way set-active-program command for a slot.
pub fn encode_set_active(slot: u8) -> (r: Vec<u8>)
    requires
        1 <= slot <= 4,
    ensures
        r@ == set_active_bytes(slot),
{
    let mut out: Vec<u8> = Vec::new();
    out.push(0xF0);
    out.push(0x47);
    out.push(0x7F);
    out.push(0x75);
    out.push(0x62);
    out.push(0x00);
    out.push(0x01);
    out.push(slot);
    out.push(0xF7);
    proof {
        assert(out@ =~= set_active_bytes(slot));
    }
    out
}

/// Builds the get-active-program request.
pub fn encode_get_active() -> (r: Vec<u8>)
    ensures
        r@ == get_active_bytes(),
{
    let mut out: Vec<u8> = Vec::new();
    out.push(0xF0);
    out.push(0x47);
    out.push(0x7F);
    out.push(0x75);
    out.push(0x64);
    out.push(0x00);
    out.push(0x00);
    out.push(0xF7);
    proof {
        assert(out@ =~= get_active_bytes());
    }
    out
}

/// Builds the universal identify request.
pub fn encode_identify_request() -> (r: Vec<u8>)
    ensures
        r@ == identify_request_bytes(),
{
    let mut out: Vec<u8> = Vec::new();
    out.push(0xF0);
    out.push(0x7E);
    out.push(0x00);
    out.push(0x06);
    out.push(0x01);
    out.push(0xF7);
    proof {
        assert(out@ =~= identify_request_bytes());
    }
    out
}

/// Appends the 4-byte groups of the pads to `out`.
fn push_pad_section(out: &mut Vec<u8>, pads: &Vec<Pad>)
    ensures
        final(out)@ == old(out)@ + pads_bytes(pads@),
{
    let mut i: usize = 0;
    while i < pads.len()
        invariant
            i <= pads@.len(),
            out@ =~= old(out)@ + pads_bytes(pads@.subrange(0, i as int)),
        decreases pads@.len() - i,
    {
        let pad = pads[i];
        out.push(pad.note);
        out.push(pad.program_change);
        out.push(pad.control_change);
        out.push(if pad.toggle {
            1
        } else {
            0
        });
        proof {
            let done = pads@.subrange(0, i + 1);
            assert(done.drop_last() =~= pads@.subrange(0, i as int));
            assert(out@ =~= old(out)@ + pads_bytes(done));
        }
        i = i + 1;
    }
    proof {
        assert(pads@.subrange(0, pads@.len() as int) =~= pads@);
    }
}

/// Appends the 3-byte groups of the knobs to `out`.
fn push_knob_section(out: &mut Vec<u8>, knobs: &Vec<Knob>)
    ensures
        final(out)@ == old(out)@ + knobs_bytes(knobs@),
{
    let mut i: usize = 0;
    while i < knobs.len()
        invariant
            i <= knobs@.len(),
            out@ =~= old(out)@ + knobs_bytes(knobs@.subrange(0, i as int)),
        decreases knobs@.len() - i,
    {
        let knob = knobs[i];
        out.push(knob.control_change);
        out.push(knob.low);
        out.push(knob.high);
        proof {
            let done = knobs@.subrange(0, i + 1);
            assert(done.drop_last() =~= knobs@.subrange(0, i as int));
            assert(out@ =~= old(out)@ + knobs_bytes(done));
        }
        i = i + 1;
    }
    proof {
        assert(knobs@.subrange(0, knobs@.len() as int) =~= knobs@);
    }
}

/// Builds the 66-byte one-way program upload: `F0 47 7F 75 61 00 3A <slot>
/// <channel>`, the 32 pad bytes, the 24 knob bytes, `F7`.
pub fn encode_program_upload(slot: u8, p: &Program) -> (r: Vec<u8>)
    requires
        1 <= slot <= 4,
        p.wf(),
    ensures
        r@ == upload_bytes(slot, *p),
        r@.len() == 66,
{
    let mut out: Vec<u8> = Vec::new();
    out.push(0xF0);
    out.push(0x47);
    out.push(0x7F);
    out.push(0x75);
    out.push(0x61);
    out.push(0x00);
    out.push(0x3A);
    out.push(slot);
    out.push(p.channel);
    proof {
        assert(out@ =~= upload_prefix(slot, p.channel));
    }
    push_pad_section(&mut out, &p.pads);
    push_knob_section(&mut out, &p.knobs);
    out.push(0xF7);
    proof {
        lemma_pads_bytes_len(p.pads@);
        lemma_knobs_bytes_len(p.knobs@);
        assert(out@ =~= upload_bytes(slot, *p));
    }
    out
}

/// Builds the 67-byte response-shaped image of a program: what the device
/// returns for a get-program request on a slot holding exactly `p`.  It
/// carries the upload's field layout behind the response prefix.
pub fn encode_program_response(slot: u8, p: &Program) -> (r: Vec<u8>)
    requires
        1 <= slot <= 4,
        p.wf(),
    ensures
        r@ == response_bytes(slot, *p),
        r@.len() == 67,
{
    let mut out: Vec<u8> = Vec::new();
    out.push(0xF0);
    out.push(0x47);
    out.push(0x7F);
    out.push(0x75);
    out.push(0x63);
    out.push(0x00);
    out.push(0x3A);
    out.push(slot);
    out.push(p.channel);
    proof {
        assert(out@ =~= response_prefix(slot, p.channel));
    }
    push_pad_section(&mut out, &p.pads);
    push_knob_section(&mut out, &p.knobs);
    out.push(0x00);
    out.push(0xF7);
    proof {
        lemma_pads_bytes_len(p.pads@);
        lemma_knobs_bytes_len(p.knobs@);
        assert(out@ =~= response_bytes(slot, *p));
    }
    out
}

/// The pad that offsets `9 + 4i .. 13 + 4i` of a program response decode
/// to.  The toggle flag comes from the fourth byte of the group, never
/// from the note byte at its head.
pub open spec fn decoded_pad(s: Seq<u8>, i: int) -> Pad {
    Pad {
        note: s[9 + 4 * i],
        program_change: s[10 + 4 * i],
        control_change: s[11 + 4 * i],
        toggle: s[12 + 4 * i] == 1,
    }
}

/// The 8 pads a program response decodes to.
pub open spec fn decoded_pads(s: Seq<u8>) -> Seq<Pad> {
    Seq::new(8, |i: int| decoded_pad(s, i))
}

/// The knob that offsets `41 + 3i .. 44 + 3i` of a program response
/// decode to.
pub open spec fn decoded_knob(s: Seq<u8>, i: int) -> Knob {
    Knob { control_change: s[41 + 3 * i], low: s[42 + 3 * i], high: s[43 + 3 * i] }
}

/// The 8 knobs a program response decodes to.
pub open spec fn decoded_knobs(s: Seq<u8>) -> Seq<Knob> {
    Seq::new(8, |i: int| decoded_knob(s, i))
}

/// Decodes a program response: channel at offset 8, pads at 9..41 in
/// 4-byte groups, knobs at 41..65 in 3-byte groups.  Anything but the
/// exact expected length of 67 bytes is a malformed response; no offset
/// is read before the length check.
pub fn decode_program(msg: &Vec<u8>) -> (r: Result<Program, WireError>)
    ensures
        r is Ok <==> msg@.len() == 67,
        r matches Ok(p) ==> {
            &&& p.wf()
            &&& p.channel == msg@[8]
            &&& p.pads@ == decoded_pads(msg@)
            &&& p.knobs@ == decoded_knobs(msg@)
        },
        r matches Err(e) ==> e == WireError::MalformedResponse,
{
    if msg.len() != 67 {
        return Err(WireError::MalformedResponse);
    }
    let mut pads: Vec<Pad> = Vec::new();
    let mut i: usize = 0;
    while i < 8
        invariant
            msg@.len() == 67,
            i <= 8,
            pads@.len() == i,
            forall|j: int| 0 <= j < i ==> pads@[j] == decoded_pad(msg@, j),
        decreases 8 - i,
    {
        let base: usize = 9 + 4 * i;
        pads.push(
            Pad {
                note: msg[base],
                program_change: msg[base + 1],
                control_change: msg[base + 2],
                toggle: msg[base + 3] == 1,
            },
        );
        i = i + 1;
    }
    let mut knobs: Vec<Knob> = Vec::new();
    let mut k: usize = 0;
    while k < 8
        invariant
            msg@.len() == 67,
            k <= 8,
            knobs@.len() == k,
            forall|j: int| 0 <= j < k ==> knobs@[j] == decoded_knob(msg@, j),
        decreases 8 - k,
    {
        let base: usize = 41 + 3 * k;
        knobs.push(Knob { control_change: msg[base], low: msg[base + 1], high: msg[base + 2] });
        k = k + 1;
    }
    proof {
        assert(pads@ =~= decoded_pads(msg@));
        assert(knobs@ =~= decoded_knobs(msg@));
    }
    Ok(Program { channel: msg[8], pads, knobs })
}

/// Decodes a get-active-program response: `F0 47 7F 75 64 00 01 <slot>
/// F7`, 9 bytes, slot at offset 7.  A message of any other length, or one
/// whose fixed header at offsets 0..7 deviates from the template at any
/// position, is a malformed response.
pub fn decode_active(msg: &Vec<u8>) -> (r: Result<u8, WireError>)
    ensures
        r is Ok <==> active_response_ok(msg@),
        r matches Ok(slot) ==> slot == msg@[7],
        r matches Err(e) ==> e == WireError::MalformedResponse,
{
    if msg.len() != 9 {
        return Err(WireError::MalformedResponse);
    }
    if msg[0] == 0xF0 && msg[1] == 0x47 && msg[2] == 0x7F && msg[3] == 0x75 && msg[4] == 0x64
        && msg[5] == 0x00 && msg[6] == 0x01 {
        Ok(msg[7])
    } else {
        Err(WireError::MalformedResponse)
    }
}

/// A get-active-program response of the exact expected length whose fixed
/// header equals `F0 47 7F 75 64 00 01`.
pub open spec fn active_response_ok(s: Seq<u8>) -> bool {
    &&& s.len() == 9
    &&& s[0] == 0xF0
    &&& s[1] == 0x47
    &&& s[2] == 0x7F
    &&& s[3] == 0x75
    &&& s[4] == 0x64
    &&& s[5] == 0x00
    &&& s[6] == 0x01
}

/// Round trip: a program written out in the upload's field layout and
/// read back as a program response decodes to the very same program, for
/// every well-formed program whose data bytes lie in 0..=127 and every
/// slot.
pub proof fn lemma_program_round_trip(slot: u8, p: Program)
    requires
        1 <= slot <= 4,
        p.wf(),
        p.in_range(),
    ensures
        response_bytes(slot, p).len() == 67,
        response_bytes(slot, p)[8] == p.channel,
        decoded_pads(response_bytes(slot, p)) == p.pads@,
        decoded_knobs(response_bytes(slot, p)) == p.knobs@,
{
    let s = response_bytes(slot, p);
    lemma_pads_bytes_len(p.pads@);
    lemma_knobs_bytes_len(p.knobs@);
    assert forall|i: int| 0 <= i < 8 implies decoded_pads(s)[i] == p.pads@[i] by {
        lemma_pads_bytes_index(p.pads@, i);
        assert(s[9 + 4 * i] == pads_bytes(p.pads@)[4 * i]);
        assert(s[10 + 4 * i] == pads_bytes(p.pads@)[4 * i + 1]);
        assert(s[11 + 4 * i] == pads_bytes(p.pads@)[4 * i + 2]);
        assert(s[12 + 4 * i] == pads_bytes(p.pads@)[4 * i + 3]);
    }
    assert forall|i: int| 0 <= i < 8 implies decoded_knobs(s)[i] == p.knobs@[i] by {
        lemma_knobs_bytes_index(p.knobs@, i);
        assert(s[41 + 3 * i] == knobs_bytes(p.knobs@)[3 * i]);
        assert(s[42 + 3 * i] == knobs_bytes(p.knobs@)[3 * i + 1]);
        assert(s[43 + 3 * i] == knobs_bytes(p.knobs@)[3 * i + 2]);
    }
    assert(decoded_pads(s) =~= p.pads@);
    assert(decoded_knobs(s) =~= p.knobs@);
}

} // verus!
