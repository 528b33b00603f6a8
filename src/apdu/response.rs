//! Response APDUs: a payload followed by the two status bytes.

use vstd::prelude::*;

use super::StatusError;

verus! {

/// The status word of a raw response: its last two bytes, or `(0, 0)` when
/// fewer than two bytes came back.
pub open spec fn trailer_of(raw: Seq<u8>) -> (u8, u8) {
    if raw.len() >= 2 {
        (raw[raw.len() - 2], raw[raw.len() - 1])
    } else {
        (0u8, 0u8)
    }
}

/// The payload of a raw response: everything before the status word.
pub open spec fn payload_of(raw: Seq<u8>) -> Seq<u8> {
    if raw.len() >= 2 {
        raw.take(raw.len() - 2)
    } else {
        Seq::empty()
    }
}

/// The status words `90 00` and `91 00` report success; every other one is an error.
pub open spec fn is_success(trailer: (u8, u8)) -> bool {
    trailer == (0x90u8, 0x00u8) || trailer == (0x91u8, 0x00u8)
}

/// The payload on success, else the status word as an error.
pub open spec fn result_of(payload: Seq<u8>, trailer: (u8, u8)) -> Result<Seq<u8>, StatusError> {
    if is_success(trailer) {
        Ok(payload)
    } else {
        Err(StatusError { sw1: trailer.0, sw2: trailer.1 })
    }
}

/// What a raw response means to its caller.
pub open spec fn response_result(raw: Seq<u8>) -> Result<Seq<u8>, StatusError> {
    result_of(payload_of(raw), trailer_of(raw))
}

/// A byte-vector result seen through the view of its bytes.
pub open spec fn view_result(r: Result<Vec<u8>, StatusError>) -> Result<Seq<u8>, StatusError> {
    match r {
        Ok(v) => Ok(v@),
        Err(e) => Err(e),
    }
}

/// A response that was received from the card
pub struct Response {
    payload: Vec<u8>,
    trailer: (u8, u8),
}

impl Response {
    pub closed spec fn payload(&self) -> Seq<u8> {
        self.payload@
    }

    pub closed spec fn trailer(&self) -> (u8, u8) {
        self.trailer
    }

    /// Creates an empty response.
    pub fn new() -> (r: Self)
        ensures
            r.payload() == Seq::<u8>::empty(),
            r.trailer() == (0u8, 0u8),
    {
        Response { payload: Vec::new(), trailer: (0, 0) }
    }

    /// Parses a response from the octets.
    pub fn from_bytes(bytes: Vec<u8>) -> (r: Self)
        ensures
            r.payload() == payload_of(bytes@),
            r.trailer() == trailer_of(bytes@),
    {
        let mut bytes = bytes;
        let sw2 = bytes.pop();
        let sw1 = bytes.pop();
        match (sw1, sw2) {
            (Some(a), Some(b)) => Response { payload: bytes, trailer: (a, b) },
            _ => {
                proof {
                    assert(bytes@ =~= Seq::<u8>::empty());
                }
                Response { payload: bytes, trailer: (0, 0) }
            },
        }
    }

    /// Determines whether the response indicates success or not.
    pub fn is_ok(&self) -> (b: bool)
        ensures
            b == is_success(self.trailer()),
    {
        match self.trailer {
            (0x90, 0x00) | (0x91, 0x00) => true,
            _ => false,
        }
    }

    /// Converts the response to a result of octets.
    pub fn into_result(self) -> (r: Result<Vec<u8>, StatusError>)
        ensures
            view_result(r) == result_of(self.payload(), self.trailer()),
    {
        let is_ok = self.is_ok();
        let Response { payload, trailer } = self;
        if is_ok {
            Ok(payload)
        } else {
            Err(StatusError::from(trailer))
        }
    }
}

/// A payload framed with a status word reads back as that payload when the
/// status word reports success, and as that status word otherwise.
pub proof fn lemma_framed_response(payload: Seq<u8>, sw1: u8, sw2: u8)
    ensures
        payload_of(payload + seq![sw1, sw2]) == payload,
        trailer_of(payload + seq![sw1, sw2]) == (sw1, sw2),
        response_result(payload + seq![sw1, sw2]) == if is_success((sw1, sw2)) {
            Ok::<Seq<u8>, StatusError>(payload)
        } else {
            Err::<Seq<u8>, StatusError>(StatusError { sw1, sw2 })
        },
{
    let raw = payload + seq![sw1, sw2];
    assert(raw.take(raw.len() - 2) =~= payload);
}

/// A response of fewer than two bytes has an empty payload and the status
/// word `00 00`, which is a failure.
pub proof fn lemma_short_response(raw: Seq<u8>)
    requires
        raw.len() < 2,
    ensures
        payload_of(raw) == Seq::<u8>::empty(),
        trailer_of(raw) == (0u8, 0u8),
        !is_success(trailer_of(raw)),
        response_result(raw) == Err::<Seq<u8>, StatusError>(StatusError { sw1: 0, sw2: 0 }),
{
}

/// A response whose status word does not report success yields an error that
/// carries exactly that status word.
pub proof fn lemma_failure_keeps_status(raw: Seq<u8>)
    requires
        raw.len() >= 2,
        !is_success((raw[raw.len() - 2], raw[raw.len() - 1])),
    ensures
        response_result(raw) == Err::<Seq<u8>, StatusError>(
            StatusError { sw1: raw[raw.len() - 2], sw2: raw[raw.len() - 1] },
        ),
{
}

} // verus!
