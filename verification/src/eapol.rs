//! The decoded EAPOL key frame that the handshake engine consumes and
//! produces. Wire encoding and decoding, integrity checking and key-data
//! decryption happen in the surrounding transport layer; this module only
//! models the decoded fields.

use vstd::prelude::*;

verus! {

/// The key-information bitfield of an EAPOL key frame.
#[derive(Debug, Clone, Copy, PartialEq, Eq, Structural)]
pub struct KeyInformation {
    pub install: bool,
    pub key_ack: bool,
    pub key_mic: bool,
    pub secure: bool,
    pub error: bool,
    pub request: bool,
    pub encrypted_key_data: bool,
}

/// Mathematical image of a [`KeyFrame`]: the same fields with byte vectors
/// abstracted to sequences.
pub struct FrameModel {
    pub version: u8,
    pub key_info: KeyInformation,
    pub key_nonce: Seq<u8>,
    pub key_iv: Seq<u8>,
    pub key_rsc: u64,
    pub key_replay_counter: u64,
    pub key_data_len: u16,
    pub key_data: Seq<u8>,
}

/// A decoded EAPOL key frame, immutable once received.
#[derive(Debug, Clone, PartialEq)]
pub struct KeyFrame {
    pub version: u8,
    pub key_info: KeyInformation,
    pub key_nonce: Vec<u8>,
    pub key_iv: Vec<u8>,
    pub key_rsc: u64,
    pub key_replay_counter: u64,
    pub key_data_len: u16,
    pub key_data: Vec<u8>,
}

impl View for KeyFrame {
    type V = FrameModel;

    open spec fn view(&self) -> FrameModel {
        FrameModel {
            version: self.version,
            key_info: self.key_info,
            key_nonce: self.key_nonce@,
            key_iv: self.key_iv@,
            key_rsc: self.key_rsc,
            key_replay_counter: self.key_replay_counter,
            key_data_len: self.key_data_len,
            key_data: self.key_data@,
        }
    }
}

/// The nonce field of a key frame holds 32 bytes and the IV field 16.
pub open spec fn frame_wf(f: FrameModel) -> bool {
    &&& f.key_nonce.len() == NONCE_LEN
    &&& f.key_iv.len() == IV_LEN
}

/// Length in bytes of the key-nonce field.
pub const NONCE_LEN: usize = 32;

/// Length in bytes of the key-IV field.
pub const IV_LEN: usize = 16;

/// First protocol revision ("802.1X-2010") that is required to zero the
/// key IV of the third handshake message.
pub const PROTOCOL_VERSION_IEEE_802_1X_2010: u8 = 3;

/// The protocol revision ("802.1X-2004") stamped on frames the
/// Authenticator builds.
pub const PROTOCOL_VERSION_IEEE_802_1X_2004: u8 = 2;

/// `n` zero bytes.
pub open spec fn zeros(n: nat) -> Seq<u8> {
    Seq::new(n, |i: int| 0u8)
}

/// A vector of `n` zero bytes.
pub fn zero_vec(n: usize) -> (v: Vec<u8>)
    ensures
        v@ == zeros(n as nat),
{
    let v = vec![0u8; n];
    proof {
        assert(v@ =~= zeros(n as nat));
    }
    v
}

} // verus!
