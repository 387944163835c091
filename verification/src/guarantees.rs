//! Frame-independent guarantees of the classifier, the validators and the
//! Authenticator's state machine, each proved for every frame rather than
//! for chosen examples.

use crate::authenticator;
use crate::eapol::{FrameModel, PROTOCOL_VERSION_IEEE_802_1X_2010};
use crate::fourway::{
    all_zero, role_can_receive, spec_message_number, spec_on_frame, spec_validate,
    spec_validate_message_1, spec_validate_message_3, ConfigModel, FourwayModel, MessageNumber,
};
use crate::rsna::{Role, UpdateModel};
use crate::Error;
use vstd::prelude::*;

verus! {

/// Classification is exhaustive over the two control bits it reads:
/// acknowledgement without install is the first message and with install
/// the third; no acknowledgement and not secure is the second, and secure
/// the fourth.
pub proof fn lemma_classification_exhaustive(f: FrameModel)
    ensures
        f.key_info.key_ack && !f.key_info.install ==> spec_message_number(f)
            == MessageNumber::Message1,
        f.key_info.key_ack && f.key_info.install ==> spec_message_number(f)
            == MessageNumber::Message3,
        !f.key_info.key_ack && !f.key_info.secure ==> spec_message_number(f)
            == MessageNumber::Message2,
        !f.key_info.key_ack && f.key_info.secure ==> spec_message_number(f)
            == MessageNumber::Message4,
{
}

/// The requirement table is coherent with classification: each message's
/// table pins the control bits that classification reads, so a frame that
/// validates as message `msg_no` also classifies as `msg_no`.
pub proof fn lemma_validation_pins_classification(
    msg_no: MessageNumber,
    f: FrameModel,
    nonce: Option<Seq<u8>>,
)
    requires
        crate::fourway::spec_validate_frame(
            crate::fourway::message_requirements(msg_no),
            f,
            nonce,
            msg_no,
        ) is Ok,
    ensures
        spec_message_number(f) == msg_no,
{
}

/// A first message with conforming control bits, a fresh nonce, a zeroed
/// IV and a zeroed receive sequence counter validates successfully —
/// whatever its MIC bit and protocol version hold.
pub proof fn lemma_msg1_mic_bit_tolerated(f: FrameModel)
    requires
        !f.key_info.install,
        f.key_info.key_ack,
        !f.key_info.secure,
        !f.key_info.error,
        !f.key_info.request,
        !f.key_info.encrypted_key_data,
        !all_zero(f.key_nonce),
        all_zero(f.key_iv),
        f.key_rsc == 0,
    ensures
        spec_validate_message_1(f) == Ok::<(), Error>(()),
{
}

/// A first message with conforming control bits and a fresh nonce but any
/// non-zero IV byte is rejected as `InvalidIv`, for every protocol
/// version.
pub proof fn lemma_msg1_nonzero_iv_rejected(f: FrameModel)
    requires
        !f.key_info.install,
        f.key_info.key_ack,
        !f.key_info.secure,
        !f.key_info.error,
        !f.key_info.request,
        !f.key_info.encrypted_key_data,
        !all_zero(f.key_nonce),
        !all_zero(f.key_iv),
    ensures
        spec_validate_message_1(f) == Err::<(), Error>(
            Error::InvalidIv(f.version, MessageNumber::Message1),
        ),
{
}

/// The interoperability exception for the third message's IV: below
/// protocol revision "802.1X-2010" an otherwise conforming third message
/// validates whatever its IV holds; from that revision on, a non-zero IV
/// is rejected as `InvalidIv`.
pub proof fn lemma_msg3_iv_version_exception(f: FrameModel, nonce: Option<Seq<u8>>)
    requires
        f.key_info.install,
        f.key_info.key_ack,
        f.key_info.key_mic,
        f.key_info.secure,
        !f.key_info.error,
        !f.key_info.request,
        f.key_info.encrypted_key_data,
        nonce matches Some(n) ==> !all_zero(f.key_nonce) && f.key_nonce == n,
        f.key_data_len != 0,
    ensures
        f.version < PROTOCOL_VERSION_IEEE_802_1X_2010 ==> spec_validate_message_3(f, nonce)
            == Ok::<(), Error>(()),
        f.version >= PROTOCOL_VERSION_IEEE_802_1X_2010 && !all_zero(f.key_iv)
            ==> spec_validate_message_3(f, nonce) == Err::<(), Error>(
            Error::InvalidIv(f.version, MessageNumber::Message3),
        ),
{
}

/// A third message that conforms in everything else but declares no key
/// data is rejected as `EmptyKeyData`.
pub proof fn lemma_msg3_empty_key_data_rejected(f: FrameModel, nonce: Option<Seq<u8>>)
    requires
        f.key_info.install,
        f.key_info.key_ack,
        f.key_info.key_mic,
        f.key_info.secure,
        !f.key_info.error,
        !f.key_info.request,
        f.key_info.encrypted_key_data,
        nonce matches Some(n) ==> !all_zero(f.key_nonce) && f.key_nonce == n,
        f.version >= PROTOCOL_VERSION_IEEE_802_1X_2010 ==> all_zero(f.key_iv),
        f.key_data_len == 0,
    ensures
        spec_validate_message_3(f, nonce) == Err::<(), Error>(
            Error::EmptyKeyData(MessageNumber::Message3),
        ),
{
}

/// An Authenticator that has not initiated rejects every frame as
/// unexpected and fails: a message its role may not receive is refused
/// outright, and a second or fourth message that passes validation finds
/// the machine idle. (A frame of a receivable message number that fails
/// validation is rejected with that validator's error instead, before the
/// machine is consulted.)
pub proof fn lemma_uninitiated_authenticator_rejects(
    cfg: ConfigModel,
    pmk: Seq<u8>,
    frame: FrameModel,
    kd: Seq<u8>,
    fresh: Seq<u8>,
)
    requires
        role_can_receive(Role::Authenticator, spec_message_number(frame)) ==> spec_validate(
            spec_message_number(frame),
            frame,
            None,
        ) is Ok,
    ensures
        ({
            let m = FourwayModel::Authenticator(authenticator::StateModel::Idle { cfg, pmk });
            let (m2, ups, res) = spec_on_frame(m, frame, kd, fresh);
            let e = Error::UnexpectedMessage(spec_message_number(frame));
            &&& m2 == FourwayModel::Authenticator(authenticator::StateModel::Failed { cfg })
            &&& ups == seq![UpdateModel::HandshakeFailed(e)]
            &&& res == Err::<(), Error>(e)
        }),
{
}

/// Replaying a second message after the handshake has advanced to
/// awaiting the fourth is rejected, the machine fails, and the third
/// message is not re-emitted: no appended update carries an outbound
/// frame.
pub proof fn lemma_replayed_msg2_not_reemitted(
    cfg: ConfigModel,
    ptk: Seq<u8>,
    gtk: Seq<u8>,
    last_krc: u64,
    frame: FrameModel,
    kd: Seq<u8>,
    fresh: Seq<u8>,
)
    requires
        spec_message_number(frame) == MessageNumber::Message2,
    ensures
        ({
            let m = FourwayModel::Authenticator(
                authenticator::StateModel::AwaitingMsg4 { cfg, ptk, gtk, last_krc },
            );
            let (m2, ups, res) = spec_on_frame(m, frame, kd, fresh);
            &&& m2 == FourwayModel::Authenticator(authenticator::StateModel::Failed { cfg })
            &&& res is Err
            &&& forall|i: int|
                0 <= i < ups.len() ==> !(#[trigger] ups[i] is TxEapolKeyFrame)
        }),
{
}

} // verus!
