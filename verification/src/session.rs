//! Device session: the aggregate the presentation layer talks to.  It
//! holds the selected device's endpoint pair and the last-known snapshot
//! of the device's four program slots, and turns transaction outcomes
//! into values — leaving the in-memory state untouched on every failure.
//!
//! The transport performs the actual send and wait; the session provides
//! the payloads to send and consumes the response, if any, that the
//! transaction engine's matcher accepted.  The caller must serialize
//! transactions per endpoint pair: the protocol has no transaction id,
//! so two in-flight transactions with overlapping response patterns
//! could cross-match.

use crate::codec::Program;
use crate::codec::active_response_ok;
use crate::codec::decode_active;
use crate::codec::decode_program;
use crate::codec::decoded_knobs;
use crate::codec::decoded_pads;
use crate::codec::encode_program_upload;
use crate::codec::upload_bytes;
use vstd::prelude::*;

verus! {

/// One directional MIDI endpoint: the name is the stable lookup key, the
/// index only the handle it resolved to at one enumeration.
#[derive(Clone, Debug)]
pub struct EndpointRef {
    pub index: usize,
    pub name: String,
}

/// The input/output endpoint pair of one physical device.  Replaced
/// wholesale on device re-selection, never partially mutated.
#[derive(Clone, Debug)]
pub struct DevicePortPair {
    pub input: EndpointRef,
    pub output: EndpointRef,
}

/// Why a transaction-backed session operation failed.
#[derive(Clone, Copy, Debug, PartialEq, Eq, Structural)]
pub enum TransactFailure {
    /// A named endpoint no longer exists at resolution time.
    EndpointNotFound,
    /// No matching response arrived within the deadline.
    Timeout,
    /// The matched response failed the fixed-length or fixed-field
    /// decode.
    MalformedResponse,
}

/// The two programs carry the same configuration, field for field.
pub open spec fn same_program(a: Program, b: Program) -> bool {
    a.channel == b.channel && a.pads@ == b.pads@ && a.knobs@ == b.knobs@
}

/// The session state: the active device pair, if one was selected, and
/// the in-memory snapshot of the device's four program slots (ids 1–4).
pub struct DeviceSession {
    pub device: Option<DevicePortPair>,
    pub programs: Vec<Program>,
}

impl DeviceSession {
    /// Exactly four slots, each structurally well-formed.
    pub open spec fn wf(self) -> bool {
        &&& self.programs@.len() == 4
        &&& forall|i: int| 0 <= i < 4 ==> (#[trigger] self.programs@[i]).wf()
    }

    /// A fresh session: no device selected, all four slots at the
    /// all-zero default program.
    pub fn new() -> (s: DeviceSession)
        ensures
            s.wf(),
            s.device is None,
            forall|i: int| 0 <= i < 4 ==> (#[trigger] s.programs@[i]).is_default(),
    {
        let mut programs: Vec<Program> = Vec::new();
        programs.push(Program::default());
        programs.push(Program::default());
        programs.push(Program::default());
        programs.push(Program::default());
        DeviceSession { device: None, programs }
    }

    /// Atomically replaces the active device pair; the program slots are
    /// not refreshed by selection alone.
    pub fn select_device(&mut self, pair: DevicePortPair)
        ensures
            final(self).device == Some(pair),
            final(self).programs == old(self).programs,
    {
        self.device = Some(pair);
    }

    /// The in-memory snapshot of a slot.
    pub fn program(&self, slot: u8) -> (r: &Program)
        requires
            self.wf(),
            1 <= slot <= 4,
        ensures
            *r == self.programs@[slot - 1],
    {
        &self.programs[(slot - 1) as usize]
    }

    /// Overwrites a slot's in-memory snapshot with an operator edit.
    pub fn set_program(&mut self, slot: u8, p: Program)
        requires
            old(self).wf(),
            1 <= slot <= 4,
            p.wf(),
        ensures
            final(self).wf(),
            final(self).device == old(self).device,
            final(self).programs@ == old(self).programs@.update(slot - 1, p),
    {
        self.programs.set((slot - 1) as usize, p);
    }

    /// Serializes a slot's in-memory snapshot as the one-way upload
    /// command; the device gives no application-level acknowledgement.
    pub fn push_payload(&self, slot: u8) -> (r: Vec<u8>)
        requires
            self.wf(),
            1 <= slot <= 4,
        ensures
            r@ == upload_bytes(slot, self.programs@[slot - 1]),
    {
        encode_program_upload(slot, &self.programs[(slot - 1) as usize])
    }

    /// Consumes the outcome of a get-program transaction on a slot.  No
    /// response within the deadline is a timeout; a matched response
    /// that fails the fixed-length decode is a malformed response; both
    /// leave every in-memory slot untouched.  A decoded response
    /// overwrites the slot's snapshot, alone, and is returned.
    pub fn apply_fetch(&mut self, slot: u8, response: Option<Vec<u8>>) -> (r: Result<
        Program,
        TransactFailure,
    >)
        requires
            old(self).wf(),
            1 <= slot <= 4,
        ensures
            final(self).wf(),
            final(self).device == old(self).device,
            response is None ==> r == Err::<Program, TransactFailure>(TransactFailure::Timeout)
                && final(self).programs == old(self).programs,
            response matches Some(m) ==> {
                &&& m@.len() != 67 ==> r == Err::<Program, TransactFailure>(
                    TransactFailure::MalformedResponse,
                ) && final(self).programs == old(self).programs
                &&& m@.len() == 67 ==> {
                    &&& r matches Ok(p)
                    &&& p.wf()
                    &&& p.channel == m@[8]
                    &&& p.pads@ == decoded_pads(m@)
                    &&& p.knobs@ == decoded_knobs(m@)
                    &&& same_program(final(self).programs@[slot - 1], p)
                    &&& forall|j: int|
                        0 <= j < 4 && j != slot - 1 ==> final(self).programs@[j] == old(
                            self,
                        ).programs@[j]
                }
            },
    {
        match response {
            None => Err(TransactFailure::Timeout),
            Some(m) => match decode_program(&m) {
                Err(_) => Err(TransactFailure::MalformedResponse),
                Ok(p) => {
                    let stored = p.clone();
                    self.programs.set((slot - 1) as usize, stored);
                    Ok(p)
                },
            },
        }
    }

    /// Consumes the outcome of a get-active-program transaction: the
    /// slot byte of a well-formed response, a timeout when nothing
    /// matched in time, a malformed response otherwise.
    pub fn complete_current_active(response: Option<Vec<u8>>) -> (r: Result<u8, TransactFailure>)
        ensures
            response is None ==> r == Err::<u8, TransactFailure>(TransactFailure::Timeout),
            response matches Some(m) ==> {
                &&& active_response_ok(m@) ==> r == Ok::<u8, TransactFailure>(m@[7])
                &&& !active_response_ok(m@) ==> r == Err::<u8, TransactFailure>(
                    TransactFailure::MalformedResponse,
                )
            },
    {
        match response {
            None => Err(TransactFailure::Timeout),
            Some(m) => match decode_active(&m) {
                Ok(slot) => Ok(slot),
                Err(_) => Err(TransactFailure::MalformedResponse),
            },
        }
    }
}

} // verus!
