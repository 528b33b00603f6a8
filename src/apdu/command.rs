//! Command APDUs and their wire form.

use vstd::prelude::*;

use super::{CLA_DEFAULT, INS_READ_BINARY, INS_SELECT_FILE, INS_VERIFY};

verus! {

/// The wire form of a short command APDU: `CLA INS P1 P2`, then `LC` and the
/// data field when there is a payload, then `LE` when one is expected.
pub open spec fn encode(
    cla: u8,
    ins: u8,
    p1: u8,
    p2: u8,
    le: Option<u8>,
    payload: Option<Seq<u8>>,
) -> Seq<u8> {
    seq![cla, ins, p1, p2] + match payload {
        Some(p) => seq![p.len() as u8] + p,
        None => Seq::empty(),
    } + match le {
        Some(l) => seq![l],
        None => Seq::empty(),
    }
}

/// SELECT FILE: the selector goes in the data field, and an empty selector
/// leaves out the data field and its length.
pub open spec fn select_file_bytes(p1: u8, p2: u8, selector: Seq<u8>) -> Seq<u8> {
    if selector.len() == 0 {
        encode(CLA_DEFAULT, INS_SELECT_FILE, p1, p2, None, None)
    } else {
        encode(CLA_DEFAULT, INS_SELECT_FILE, p1, p2, None, Some(selector))
    }
}

/// READ BINARY: parameters and an expected length, no data field.
pub open spec fn read_binary_bytes(p1: u8, p2: u8, le: u8) -> Seq<u8> {
    encode(CLA_DEFAULT, INS_READ_BINARY, p1, p2, Some(le), None)
}

/// VERIFY: the PIN goes in the data field, and an empty PIN asks only whether
/// verification is still needed.
pub open spec fn verify_bytes(p2: u8, pin: Seq<u8>) -> Seq<u8> {
    if pin.len() == 0 {
        encode(CLA_DEFAULT, INS_VERIFY, 0x00, p2, None, None)
    } else {
        encode(CLA_DEFAULT, INS_VERIFY, 0x00, p2, None, Some(pin))
    }
}

pub struct Command {
    cla: u8,
    ins: u8,
    p1: u8,
    p2: u8,
    le: Option<u8>,
    payload: Option<Vec<u8>>,
}

impl Command {
    /// The data field fits the one-byte length of a short APDU.
    pub closed spec fn wf(&self) -> bool {
        match self.payload {
            Some(p) => p@.len() <= 255,
            None => true,
        }
    }

    /// The bytes that this command puts on the wire.
    pub closed spec fn bytes(&self) -> Seq<u8> {
        encode(
            self.cla,
            self.ins,
            self.p1,
            self.p2,
            self.le,
            match self.payload {
                Some(p) => Some(p@),
                None => None,
            },
        )
    }

    pub fn new(cla: u8, ins: u8, p1: u8, p2: u8) -> (r: Self)
        ensures
            r.wf(),
            r.bytes() == encode(cla, ins, p1, p2, None, None),
    {
        Command { cla, ins, p1, p2, le: None, payload: None }
    }

    pub fn new_with_le(cla: u8, ins: u8, p1: u8, p2: u8, le: u8) -> (r: Self)
        ensures
            r.wf(),
            r.bytes() == encode(cla, ins, p1, p2, Some(le), None),
    {
        Command { cla, ins, p1, p2, le: Some(le), payload: None }
    }

    pub fn new_with_payload(cla: u8, ins: u8, p1: u8, p2: u8, payload: Vec<u8>) -> (r: Self)
        requires
            payload@.len() <= 255,
        ensures
            r.wf(),
            r.bytes() == encode(cla, ins, p1, p2, None, Some(payload@)),
    {
        Command { cla, ins, p1, p2, le: None, payload: Some(payload) }
    }

    pub fn new_with_payload_le(cla: u8, ins: u8, p1: u8, p2: u8, le: u8, payload: Vec<u8>) -> (r:
        Self)
        requires
            payload@.len() <= 255,
        ensures
            r.wf(),
            r.bytes() == encode(cla, ins, p1, p2, Some(le), Some(payload@)),
    {
        Command { cla, ins, p1, p2, le: Some(le), payload: Some(payload) }
    }

    pub fn select_file(p1: u8, p2: u8, payload: Vec<u8>) -> (r: Self)
        requires
            payload@.len() <= 255,
        ensures
            r.wf(),
            r.bytes() == select_file_bytes(p1, p2, payload@),
    {
        if payload.len() == 0 {
            Self::new(CLA_DEFAULT, INS_SELECT_FILE, p1, p2)
        } else {
            Self::new_with_payload(CLA_DEFAULT, INS_SELECT_FILE, p1, p2, payload)
        }
    }

    pub fn read_binary(p1: u8, p2: u8, le: u8) -> (r: Self)
        ensures
            r.wf(),
            r.bytes() == read_binary_bytes(p1, p2, le),
    {
        Self::new_with_le(CLA_DEFAULT, INS_READ_BINARY, p1, p2, le)
    }

    pub fn verify(p2: u8, payload: Vec<u8>) -> (r: Self)
        requires
            payload@.len() <= 255,
        ensures
            r.wf(),
            r.bytes() == verify_bytes(p2, payload@),
    {
        if payload.len() == 0 {
            Self::new(CLA_DEFAULT, INS_VERIFY, 0x00, p2)
        } else {
            Self::new_with_payload(CLA_DEFAULT, INS_VERIFY, 0x00, p2, payload)
        }
    }

    /// Serialises the command, consuming it.
    pub fn into_bytes(self) -> (r: Vec<u8>)
        requires
            self.wf(),
        ensures
            r@ == self.bytes(),
    {
        let ghost expected = self.bytes();
        let Command { cla, ins, p1, p2, le, payload } = self;
        let mut buffer: Vec<u8> = Vec::new();
        buffer.push(cla);
        buffer.push(ins);
        buffer.push(p1);
        buffer.push(p2);
        let ghost header = buffer@;
        match payload {
            Some(p) => {
                let mut p = p;
                buffer.push(p.len() as u8);
                buffer.append(&mut p);
            },
            None => {},
        }
        let ghost body = buffer@;
        match le {
            Some(l) => buffer.push(l),
            None => {},
        }
        proof {
            assert(header =~= seq![cla, ins, p1, p2]);
            assert(buffer@ =~= expected);
        }
        buffer
    }
}

/// SELECT FILE with an empty selector is the bare four-byte header.
pub proof fn lemma_select_file_without_selector(p1: u8, p2: u8)
    ensures
        select_file_bytes(p1, p2, Seq::empty()) == seq![CLA_DEFAULT, INS_SELECT_FILE, p1, p2],
{
    assert(select_file_bytes(p1, p2, Seq::empty()) =~= seq![CLA_DEFAULT, INS_SELECT_FILE, p1, p2]);
}

/// SELECT FILE with a selector carries its length and then the selector.
pub proof fn lemma_select_file_with_selector(p1: u8, p2: u8, selector: Seq<u8>)
    requires
        0 < selector.len() <= 255,
    ensures
        select_file_bytes(p1, p2, selector) == seq![
            CLA_DEFAULT,
            INS_SELECT_FILE,
            p1,
            p2,
            selector.len() as u8,
        ] + selector,
        select_file_bytes(p1, p2, selector).len() == 5 + selector.len(),
{
    assert(select_file_bytes(p1, p2, selector) =~= seq![
        CLA_DEFAULT,
        INS_SELECT_FILE,
        p1,
        p2,
        selector.len() as u8,
    ] + selector);
}

/// READ BINARY is exactly five bytes: header and expected length.
pub proof fn lemma_read_binary_shape(p1: u8, p2: u8, le: u8)
    ensures
        read_binary_bytes(p1, p2, le) == seq![CLA_DEFAULT, INS_READ_BINARY, p1, p2, le],
{
    assert(read_binary_bytes(p1, p2, le) =~= seq![CLA_DEFAULT, INS_READ_BINARY, p1, p2, le]);
}

/// VERIFY with an empty PIN is the bare header with `P1 = 00`; with a PIN it
/// carries the PIN's length and then the PIN.
pub proof fn lemma_verify_shape(p2: u8, pin: Seq<u8>)
    requires
        pin.len() <= 255,
    ensures
        pin.len() == 0 ==> verify_bytes(p2, pin) == seq![CLA_DEFAULT, INS_VERIFY, 0x00u8, p2],
        pin.len() > 0 ==> verify_bytes(p2, pin) == seq![
            CLA_DEFAULT,
            INS_VERIFY,
            0x00u8,
            p2,
            pin.len() as u8,
        ] + pin,
{
    if pin.len() == 0 {
        assert(verify_bytes(p2, pin) =~= seq![CLA_DEFAULT, INS_VERIFY, 0x00u8, p2]);
    } else {
        assert(verify_bytes(p2, pin) =~= seq![
            CLA_DEFAULT,
            INS_VERIFY,
            0x00u8,
            p2,
            pin.len() as u8,
        ] + pin);
    }
}

} // verus!
