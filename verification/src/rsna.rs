//! Shared vocabulary of the robust security network association: the two
//! protocol roles, the update events a handshake emits, and the
//! integrity-verified frame the transport layer hands in.

use crate::eapol::{frame_wf, FrameModel, KeyFrame};
use crate::key_exchange::{Key, KeyModel};
use crate::Error;
use vstd::prelude::*;

verus! {

/// The two protocol roles of a handshake instance.
#[derive(Debug, Clone, Copy, PartialEq, Eq, Structural)]
pub enum Role {
    Authenticator,
    Supplicant,
}

/// Mathematical image of a [`SecAssocUpdate`].
pub enum UpdateModel {
    TxEapolKeyFrame(FrameModel),
    Key(KeyModel),
    HandshakeFailed(Error),
    HandshakeComplete,
}

/// An output event of the handshake engine: a frame to transmit, a key to
/// install, or a report that the handshake failed or completed. Events are
/// appended to a caller-owned ordered sink and never reordered.
#[derive(Debug, Clone, PartialEq)]
pub enum SecAssocUpdate {
    TxEapolKeyFrame(KeyFrame),
    Key(Key),
    HandshakeFailed(Error),
    HandshakeComplete,
}

impl View for SecAssocUpdate {
    type V = UpdateModel;

    open spec fn view(&self) -> UpdateModel {
        match self {
            SecAssocUpdate::TxEapolKeyFrame(f) => UpdateModel::TxEapolKeyFrame(f@),
            SecAssocUpdate::Key(k) => UpdateModel::Key(k@),
            SecAssocUpdate::HandshakeFailed(e) => UpdateModel::HandshakeFailed(*e),
            SecAssocUpdate::HandshakeComplete => UpdateModel::HandshakeComplete,
        }
    }
}

/// The caller-owned ordered sink that update events are appended to.
pub type UpdateSink = Vec<SecAssocUpdate>;

/// The sequence of update events a sink holds, as models.
pub open spec fn updates_view(s: Seq<SecAssocUpdate>) -> Seq<UpdateModel> {
    s.map_values(|u: SecAssocUpdate| u@)
}

/// Appending updates to a sink appends their models.
pub proof fn lemma_updates_view_concat(a: Seq<SecAssocUpdate>, b: Seq<SecAssocUpdate>)
    ensures
        updates_view(a + b) == updates_view(a) + updates_view(b),
{
    assert(updates_view(a + b) =~= updates_view(a) + updates_view(b));
}

/// A key frame whose authentication tag has been checked and whose key
/// data has been decrypted by the external integrity collaborator. The
/// engine never performs that cryptographic check itself; constructing a
/// `VerifiedKeyFrame` asserts that it already happened.
pub struct VerifiedKeyFrame<'a> {
    frame: &'a KeyFrame,
    kd_plaintext: Vec<u8>,
}

impl<'a> VerifiedKeyFrame<'a> {
    /// The wrapped frame.
    pub closed spec fn frame_model(&self) -> FrameModel {
        self.frame@
    }

    /// The decrypted key data.
    pub closed spec fn kd_model(&self) -> Seq<u8> {
        self.kd_plaintext@
    }

    /// Wraps a frame together with its decrypted key data. Only the
    /// external integrity/decryption collaborator may call this, and only
    /// after checking the frame's authentication tag (when the message
    /// carries one) and decrypting its key data.
    pub fn new(frame: &'a KeyFrame, kd_plaintext: Vec<u8>) -> (r: VerifiedKeyFrame<'a>)
        requires
            frame_wf(frame@),
        ensures
            r.frame_model() == frame@,
            r.kd_model() == kd_plaintext@,
    {
        VerifiedKeyFrame { frame, kd_plaintext }
    }

    /// The wrapped frame.
    pub fn get(&self) -> (r: &'a KeyFrame)
        ensures
            r@ == self.frame_model(),
    {
        self.frame
    }

    /// The decrypted key-data plaintext.
    pub fn key_data_plaintext(&self) -> (r: &Vec<u8>)
        ensures
            r@ == self.kd_model(),
    {
        &self.kd_plaintext
    }

    /// Splits the wrapper into the frame and the owned key-data plaintext.
    pub(crate) fn into_parts(self) -> (r: (&'a KeyFrame, Vec<u8>))
        ensures
            r.0@ == self.frame_model(),
            r.1@ == self.kd_model(),
    {
        (self.frame, self.kd_plaintext)
    }
}

} // verus!
