//! The transport that carries APDUs to the card.

use vstd::prelude::*;

verus! {

/// A link to a card: it sends the bytes of one command APDU and returns the
/// bytes of the card's response APDU.
///
/// A transport that fails reports it through the status word of the response
/// it returns. `Ctx` is a lightweight handle that the link needs for each
/// exchange.
pub trait Card<Ctx> {
    fn handle(&mut self, ctx: Ctx, command: Vec<u8>) -> Vec<u8>;
}

} // verus!
