//! IEEE 802.11i 4-Way Handshake engine.
//!
//! The library classifies and validates EAPOL key frames, drives the
//! per-role handshake state machines (Authenticator and Supplicant),
//! derives the pairwise transient key, and emits the association updates
//! that a caller-owned transport layer installs or forwards.

pub mod authenticator;
pub mod crypto;
pub mod eapol;
pub mod fourway;
pub mod guarantees;
pub mod kde;
pub mod key_exchange;
pub mod rsna;
pub mod rsne;
pub mod state_machine;
pub mod supplicant;

use crate::fourway::MessageNumber;
use vstd::prelude::*;

verus! {

/// Every way a frame or a configuration can be rejected.
///
/// Each frame-validation variant carries the message number of the
/// offending frame; `InvalidIv` also carries the frame's protocol version.
#[derive(Debug, Clone, Copy, PartialEq, Eq, Structural)]
pub enum Error {
    UnexpectedMessage(MessageNumber),
    InvalidInstallBitValue(MessageNumber),
    InvalidKeyAckBitValue(MessageNumber),
    InvalidKeyMicBitValue(MessageNumber),
    InvalidSecureBitValue(MessageNumber),
    InvalidErrorBitValue(MessageNumber),
    InvalidRequestBitValue(MessageNumber),
    InvalidEncryptedKeyDataBitValue(MessageNumber),
    InvalidNonce(MessageNumber),
    InvalidIv(u8, MessageNumber),
    InvalidRsc(MessageNumber),
    EmptyKeyData(MessageNumber),
    InvalidKeyDataContent(MessageNumber),
    InvalidKeyReplayCounter(MessageNumber),
    UnknownKeyExchange,
    ConfigNegotiationFailed,
}

} // verus!
