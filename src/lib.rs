//! Command and response APDUs for a smart card's PKI applet, and a session
//! that drives the card through an abstract transport.

pub mod apdu;
pub mod card;
pub mod nfc;
