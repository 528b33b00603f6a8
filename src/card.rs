//! A session with the PKI applet of the card: file selection, fragmented
//! reads, PIN verification and signing, each over one transport.

use std::marker::PhantomData;

use vstd::prelude::*;

use crate::apdu::command::{encode, read_binary_bytes, select_file_bytes, verify_bytes};
use crate::apdu::response::{is_success, payload_of, response_result, result_of, trailer_of, view_result};
use crate::apdu::{Command, Response, StatusError};
use crate::nfc;

verus! {

pub const SELECT_P1_DF: u8 = 0x04;

pub const SELECT_P1_EF: u8 = 0x02;

pub const SELECT_P2: u8 = 0x0C;

pub const VERIFY_P2: u8 = 0x80;

pub const SIGN_CLA: u8 = 0x80;

pub const SIGN_INS: u8 = 0x2A;

pub const SIGN_P1: u8 = 0x00;

pub const SIGN_P2: u8 = 0x80;

/// One command sent to the card and the raw response that came back.
pub struct Exchange {
    pub command: Seq<u8>,
    pub response: Seq<u8>,
}

/// `after` is `before` with one more exchange, which sent `command`.
pub open spec fn one_exchange(before: Seq<Exchange>, after: Seq<Exchange>, command: Seq<u8>) -> bool {
    &&& after.len() == before.len() + 1
    &&& after.drop_last() == before
    &&& after.last().command == command
}

/// The outcome of an operation that returns nothing on success.
pub open spec fn unit_result(raw: Seq<u8>) -> Result<(), StatusError> {
    match response_result(raw) {
        Ok(_) => Ok(()),
        Err(e) => Err(e),
    }
}

/// The outcome that a parsed response stands for.
pub open spec fn result_of_response(response: Response) -> Result<Seq<u8>, StatusError> {
    result_of(response.payload(), response.trailer())
}

/// `true` while a read of `len` bytes (or of unknown length) wants the bytes
/// from offset `pos` on.
pub open spec fn wants_more(len: Option<u16>, pos: u16) -> bool {
    match len {
        Some(l) => pos < l,
        None => true,
    }
}

/// The expected length for the fragment at `pos`: what is left when that
/// fits a byte, else `0`.
pub open spec fn request_length(len: Option<u16>, pos: u16) -> u8 {
    match len {
        Some(l) => if l - pos > 0xFF {
            0
        } else {
            (l - pos) as u8
        },
        None => 0,
    }
}

/// The READ BINARY command for the fragment at `pos`: the offset in `P1 P2`,
/// high byte first.
pub open spec fn fragment_command(len: Option<u16>, pos: u16) -> Seq<u8> {
    read_binary_bytes((pos / 256) as u8, (pos % 256) as u8, request_length(len, pos))
}

/// The card signals the end of the data with a fragment shorter than asked.
pub open spec fn is_short(n: nat, le: u8) -> bool {
    n % 256 < le
}

/// The sixteen-bit offset after `n` more bytes.
pub open spec fn advance(pos: u16, n: nat) -> u16 {
    ((pos + n) % 0x10000) as u16
}

/// The progress of a read that arrives in fragments.
pub struct FragmentedRead {
    len: Option<u16>,
    pos: u16,
    buf: Vec<u8>,
    done: bool,
}

impl FragmentedRead {
    pub closed spec fn total(&self) -> Option<u16> {
        self.len
    }

    pub closed spec fn position(&self) -> u16 {
        self.pos
    }

    pub closed spec fn buffer(&self) -> Seq<u8> {
        self.buf@
    }

    pub closed spec fn finished(&self) -> bool {
        self.done
    }

    /// An unfinished read still wants bytes.
    pub open spec fn wf(&self) -> bool {
        !self.finished() ==> wants_more(self.total(), self.position())
    }

    /// `after` is `self` once the response with `payload` and `trailer` to
    /// its next command has been taken in, with outcome `r`.
    pub open spec fn absorbed(
        &self,
        after: &FragmentedRead,
        payload: Seq<u8>,
        trailer: (u8, u8),
        r: Result<(), StatusError>,
    ) -> bool {
        &&& after.wf()
        &&& after.total() == self.total()
        &&& if is_success(trailer) {
            &&& r == Ok::<(), StatusError>(())
            &&& after.buffer() == self.buffer() + payload
            &&& after.position() == advance(self.position(), payload.len())
            &&& after.finished() == (is_short(
                payload.len(),
                request_length(self.total(), self.position()),
            ) || !wants_more(self.total(), after.position()))
        } else {
            &&& r == Err::<(), StatusError>(StatusError { sw1: trailer.0, sw2: trailer.1 })
            &&& after.finished()
            &&& after.buffer() == self.buffer()
            &&& after.position() == self.position()
        }
    }

    /// Starts a read of `len` bytes, or of unknown length.
    pub fn new(len: Option<u16>) -> (r: Self)
        ensures
            r.wf(),
            r.total() == len,
            r.position() == 0,
            r.buffer() == Seq::<u8>::empty(),
            r.finished() == !wants_more(len, 0),
    {
        let done = match len {
            Some(l) => l == 0,
            None => false,
        };
        FragmentedRead { len, pos: 0, buf: Vec::new(), done }
    }

    pub fn is_finished(&self) -> (b: bool)
        ensures
            b == self.finished(),
    {
        self.done
    }

    fn request_length(&self) -> (le: u8)
        requires
            self.wf(),
            !self.finished(),
        ensures
            le == request_length(self.total(), self.position()),
    {
        match self.len {
            Some(l) => if l - self.pos > 0xFF {
                0
            } else {
                (l - self.pos) as u8
            },
            None => 0,
        }
    }

    /// The command that asks for the next fragment.
    pub fn next_command(&self) -> (c: Command)
        requires
            self.wf(),
            !self.finished(),
        ensures
            c.wf(),
            c.bytes() == fragment_command(self.total(), self.position()),
    {
        let le = self.request_length();
        Command::read_binary((self.pos / 256) as u8, (self.pos % 256) as u8, le)
    }

    /// Takes in the response to the next command. A failure ends the read
    /// with the status word; a fragment shorter than asked for ends it too.
    pub fn absorb(&mut self, response: Response) -> (r: Result<(), StatusError>)
        requires
            old(self).wf(),
            !old(self).finished(),
        ensures
            old(self).absorbed(final(self), response.payload(), response.trailer(), r),
    {
        let le = self.request_length();
        let ghost payload = response.payload();
        match response.into_result() {
            Err(e) => {
                self.done = true;
                Err(e)
            },
            Ok(fragment) => {
                let mut fragment = fragment;
                let length = fragment.len();
                self.buf.append(&mut fragment);
                let step: u16 = (length % 0x10000) as u16;
                self.pos = ((self.pos as u32 + step as u32) % 0x10000) as u16;
                let more = match self.len {
                    Some(l) => self.pos < l,
                    None => true,
                };
                if ((length % 256) as u8) < le || !more {
                    self.done = true;
                }
                Ok(())
            },
        }
    }

    /// The bytes read so far.
    pub fn into_buffer(self) -> (r: Vec<u8>)
        ensures
            r@ == self.buffer(),
    {
        self.buf
    }
}

/// A session with the card's PKI applet over the transport `T`.
pub struct Card<T, Ctx> where T: nfc::Card<Ctx>, Ctx: Copy {
    delegate: Box<T>,
    exchanges: Ghost<Seq<Exchange>>,
    _ctx: PhantomData<Ctx>,
}

impl<T, Ctx> Card<T, Ctx> where T: nfc::Card<Ctx>, Ctx: Copy {
    /// Every exchange of this session with the card, oldest first.
    pub closed spec fn log(&self) -> Seq<Exchange> {
        self.exchanges@
    }

    pub fn new(delegate: Box<T>) -> (r: Self)
        ensures
            r.log() == Seq::<Exchange>::empty(),
    {
        Card { delegate, exchanges: Ghost(Seq::empty()), _ctx: PhantomData }
    }

    /// Sends one command and parses what comes back.
    fn transmit(&mut self, ctx: Ctx, command: Command) -> (r: Response)
        requires
            command.wf(),
        ensures
            one_exchange(old(self).log(), final(self).log(), command.bytes()),
            r.payload() == payload_of(final(self).log().last().response),
            r.trailer() == trailer_of(final(self).log().last().response),
    {
        let bytes = command.into_bytes();
        let ghost sent = bytes@;
        let raw = self.delegate.handle(ctx, bytes);
        let ghost received = raw@;
        self.exchanges = Ghost(self.exchanges@.push(Exchange { command: sent, response: received }));
        proof {
            assert(self.exchanges@.drop_last() =~= old(self).exchanges@);
        }
        Response::from_bytes(raw)
    }

    fn unit_of(response: Response) -> (r: Result<(), StatusError>)
        ensures
            r == match result_of_response(response) {
                Ok(_) => Ok::<(), StatusError>(()),
                Err(e) => Err(e),
            },
    {
        match response.into_result() {
            Ok(_) => Ok(()),
            Err(e) => Err(e),
        }
    }

    /// Selects a dedicated file by its name.
    pub fn select_df(&mut self, ctx: Ctx, name: Vec<u8>) -> (r: Result<(), StatusError>)
        requires
            name@.len() <= 255,
        ensures
            one_exchange(
                old(self).log(),
                final(self).log(),
                select_file_bytes(SELECT_P1_DF, SELECT_P2, name@),
            ),
            r == unit_result(final(self).log().last().response),
    {
        let response = self.transmit(ctx, Command::select_file(SELECT_P1_DF, SELECT_P2, name));
        Self::unit_of(response)
    }

    /// Selects an elementary file under the current dedicated file.
    pub fn select_ef(&mut self, ctx: Ctx, id: Vec<u8>) -> (r: Result<(), StatusError>)
        requires
            id@.len() <= 255,
        ensures
            one_exchange(
                old(self).log(),
                final(self).log(),
                select_file_bytes(SELECT_P1_EF, SELECT_P2, id@),
            ),
            r == unit_result(final(self).log().last().response),
    {
        let response = self.transmit(ctx, Command::select_file(SELECT_P1_EF, SELECT_P2, id));
        Self::unit_of(response)
    }

    /// Asks the card for the next fragment of a read and takes in its answer.
    pub fn read_fragment(&mut self, ctx: Ctx, progress: &mut FragmentedRead) -> (r: Result<
        (),
        StatusError,
    >)
        requires
            old(progress).wf(),
            !old(progress).finished(),
        ensures
            one_exchange(
                old(self).log(),
                final(self).log(),
                fragment_command(old(progress).total(), old(progress).position()),
            ),
            old(progress).absorbed(
                final(progress),
                payload_of(final(self).log().last().response),
                trailer_of(final(self).log().last().response),
                r,
            ),
    {
        let command = progress.next_command();
        let response = self.transmit(ctx, command);
        progress.absorb(response)
    }

    /// Verifies the PIN; an empty PIN only asks whether verification is needed.
    pub fn verify(&mut self, ctx: Ctx, pin: Vec<u8>) -> (r: Result<(), StatusError>)
        requires
            pin@.len() <= 255,
        ensures
            one_exchange(old(self).log(), final(self).log(), verify_bytes(VERIFY_P2, pin@)),
            r == unit_result(final(self).log().last().response),
    {
        let response = self.transmit(ctx, Command::verify(VERIFY_P2, pin));
        Self::unit_of(response)
    }

    /// Signs the digest with the card's key and returns the signature.
    pub fn sign(&mut self, ctx: Ctx, digest: Vec<u8>) -> (r: Result<Vec<u8>, StatusError>)
        requires
            digest@.len() <= 255,
        ensures
            one_exchange(
                old(self).log(),
                final(self).log(),
                encode(SIGN_CLA, SIGN_INS, SIGN_P1, SIGN_P2, Some(0u8), Some(digest@)),
            ),
            view_result(r) == response_result(final(self).log().last().response),
    {
        let command = Command::new_with_payload_le(SIGN_CLA, SIGN_INS, SIGN_P1, SIGN_P2, 0, digest);
        let response = self.transmit(ctx, command);
        response.into_result()
    }
}


/// A fragment shorter than the expected length ends the read, and the read
/// then holds exactly the bytes gathered so far, whatever total was asked for.
pub proof fn lemma_short_fragment_ends_read(
    before: FragmentedRead,
    after: FragmentedRead,
    payload: Seq<u8>,
    trailer: (u8, u8),
    r: Result<(), StatusError>,
)
    requires
        before.absorbed(&after, payload, trailer, r),
        is_success(trailer),
        payload.len() < request_length(before.total(), before.position()),
    ensures
        r == Ok::<(), StatusError>(()),
        after.finished(),
        after.buffer() == before.buffer() + payload,
{
}

/// The signing command is `80 2A 00 80`, the digest's length, the digest, and
/// an expected length of `00`.
pub proof fn lemma_sign_command_shape(digest: Seq<u8>)
    requires
        digest.len() <= 255,
    ensures
        encode(SIGN_CLA, SIGN_INS, SIGN_P1, SIGN_P2, Some(0u8), Some(digest)) == seq![
            0x80u8,
            0x2Au8,
            0x00u8,
            0x80u8,
            digest.len() as u8,
        ] + digest + seq![0x00u8],
{
    assert(encode(SIGN_CLA, SIGN_INS, SIGN_P1, SIGN_P2, Some(0u8), Some(digest)) =~= seq![
        0x80u8,
        0x2Au8,
        0x00u8,
        0x80u8,
        digest.len() as u8,
    ] + digest + seq![0x00u8]);
}

} // verus!
