//! The 4-Way Handshake: frame classification and per-message validation.
//!
//! Classification derives a frame's message number from its control bits
//! alone; validation then enforces the exact bit, nonce, IV, replay-sequence
//! and key-data conditions that IEEE Std 802.11-2016, 12.7.2 and 12.7.6
//! place on that message.

use crate::authenticator;
use crate::authenticator::GTK_LEN;
use crate::crypto::{copy_bytes, random_bytes};
use crate::eapol::{FrameModel, KeyFrame, NONCE_LEN, PROTOCOL_VERSION_IEEE_802_1X_2010};
use crate::key_exchange;
use crate::rsna::{updates_view, Role, SecAssocUpdate, UpdateModel, UpdateSink, VerifiedKeyFrame};
use crate::rsne::{compatible_rsnes, NegotiatedRsne, Rsne, RsneModel};
use crate::state_machine::StateMachine;
use crate::supplicant;
use crate::Error;
use vstd::prelude::*;

verus! {

/// Which of the four handshake messages a key frame represents.
#[derive(Debug, Clone, Copy, PartialEq, Eq, Structural)]
pub enum MessageNumber {
    Message1,
    Message2,
    Message3,
    Message4,
}

/// The message number implied by a frame's control bits: the two messages
/// sent by the Authenticator demand acknowledgement (`key_ack`), and of
/// those only the third installs a key; of the Supplicant's two messages
/// only the fourth is secure.
pub open spec fn spec_message_number(f: FrameModel) -> MessageNumber {
    if f.key_info.key_ack {
        if f.key_info.install {
            MessageNumber::Message3
        } else {
            MessageNumber::Message1
        }
    } else {
        if f.key_info.secure {
            MessageNumber::Message4
        } else {
            MessageNumber::Message2
        }
    }
}

/// Classifies a frame. Pure in the frame's `key_ack`, `install` and
/// `secure` bits; no other field is read and nothing is validated here.
pub fn message_number(rx_frame: &KeyFrame) -> (m: MessageNumber)
    ensures
        m == spec_message_number(rx_frame@),
{
    if rx_frame.key_info.key_ack {
        if rx_frame.key_info.install {
            MessageNumber::Message3
        } else {
            MessageNumber::Message1
        }
    } else {
        if rx_frame.key_info.secure {
            MessageNumber::Message4
        } else {
            MessageNumber::Message2
        }
    }
}

/// Every byte of the sequence is zero.
pub open spec fn all_zero(s: Seq<u8>) -> bool {
    forall|i: int| 0 <= i < s.len() ==> s[i] == 0
}

/// Whether every byte of the slice is zero.
pub fn is_zero(slice: &[u8]) -> (r: bool)
    ensures
        r == all_zero(slice@),
{
    let mut i: usize = 0;
    while i < slice.len()
        invariant
            0 <= i <= slice@.len(),
            forall|j: int| 0 <= j < i ==> slice@[j] == 0,
        decreases slice@.len() - i,
    {
        if slice[i] != 0 {
            return false;
        }
        i += 1;
    }
    true
}

/// Whether two byte slices hold the same bytes.
pub fn bytes_eq(a: &[u8], b: &[u8]) -> (r: bool)
    ensures
        r == (a@ == b@),
{
    if a.len() != b.len() {
        return false;
    }
    let mut i: usize = 0;
    while i < a.len()
        invariant
            a@.len() == b@.len(),
            0 <= i <= a@.len(),
            forall|j: int| 0 <= j < i ==> a@[j] == b@[j],
        decreases a@.len() - i,
    {
        if a[i] != b[i] {
            return false;
        }
        i += 1;
    }
    proof {
        assert(a@ =~= b@);
    }
    true
}

/// The first message is required to carry a zeroed MIC bit, but some
/// deployed peers set it although no key exists yet to compute a MIC with.
/// Since the bit is semantically meaningless on the first message, it is
/// deliberately tolerated for interoperability; flip this gate to see what
/// a strict validator would reject.
pub open spec fn msg1_tolerates_key_mic_bit() -> bool {
    true
}

/// What a message demands of the frame's nonce.
#[derive(Debug, Clone, Copy)]
pub enum NonceRule {
    /// The nonce is not checked.
    Ignored,
    /// The nonce must not be all zero.
    Fresh,
    /// When the caller supplies a reference nonce, the frame's nonce must
    /// not be all zero and must equal it; without a reference, unchecked.
    FreshAndMatchesReference,
}

/// What a message demands of the frame's IV.
#[derive(Debug, Clone, Copy)]
pub enum IvRule {
    /// The IV must be all zero.
    Zeroed,
    /// The IV must be all zero from the given protocol revision on; older
    /// revisions tolerate a random IV.
    ZeroedFromVersion(u8),
}

/// The requirement table of one message: the demanded value of each
/// checked control bit (`None` leaves the bit unchecked), and the nonce,
/// IV, receive-sequence-counter and key-data conditions.
#[derive(Debug, Clone, Copy)]
pub struct FieldRequirements {
    pub install: Option<bool>,
    pub key_ack: Option<bool>,
    pub key_mic: Option<bool>,
    pub secure: Option<bool>,
    pub error: Option<bool>,
    pub request: Option<bool>,
    pub encrypted_key_data: Option<bool>,
    pub nonce: NonceRule,
    pub iv: IvRule,
    pub rsc_must_be_zero: bool,
    pub key_data_must_be_nonempty: bool,
}

/// The requirement table, keyed by message number, in one place: the rules
/// of IEEE Std 802.11-2016, 12.7.2 and 12.7.6 as data.
pub open spec fn message_requirements(msg_no: MessageNumber) -> FieldRequirements {
    match msg_no {
        MessageNumber::Message1 => FieldRequirements {
            install: Some(false),
            key_ack: Some(true),
            key_mic: if msg1_tolerates_key_mic_bit() {
                None
            } else {
                Some(false)
            },
            secure: Some(false),
            error: Some(false),
            request: Some(false),
            encrypted_key_data: Some(false),
            nonce: NonceRule::Fresh,
            iv: IvRule::Zeroed,
            rsc_must_be_zero: true,
            key_data_must_be_nonempty: false,
        },
        MessageNumber::Message2 => FieldRequirements {
            install: Some(false),
            key_ack: Some(false),
            key_mic: Some(true),
            secure: Some(false),
            error: Some(false),
            request: Some(false),
            encrypted_key_data: Some(false),
            nonce: NonceRule::Fresh,
            iv: IvRule::Zeroed,
            rsc_must_be_zero: true,
            key_data_must_be_nonempty: false,
        },
        MessageNumber::Message3 => FieldRequirements {
            install: Some(true),
            key_ack: Some(true),
            key_mic: Some(true),
            secure: Some(true),
            error: Some(false),
            request: Some(false),
            encrypted_key_data: Some(true),
            nonce: NonceRule::FreshAndMatchesReference,
            iv: IvRule::ZeroedFromVersion(PROTOCOL_VERSION_IEEE_802_1X_2010),
            rsc_must_be_zero: false,
            key_data_must_be_nonempty: true,
        },
        MessageNumber::Message4 => FieldRequirements {
            install: Some(false),
            key_ack: Some(false),
            key_mic: Some(true),
            secure: Some(true),
            error: Some(false),
            request: Some(false),
            encrypted_key_data: Some(false),
            nonce: NonceRule::Ignored,
            iv: IvRule::Zeroed,
            rsc_must_be_zero: true,
            key_data_must_be_nonempty: false,
        },
    }
}

/// The frame's nonce meets the rule, against the caller's reference nonce.
pub open spec fn spec_nonce_ok(rule: NonceRule, f: FrameModel, nonce: Option<Seq<u8>>) -> bool {
    match rule {
        NonceRule::Ignored => true,
        NonceRule::Fresh => !all_zero(f.key_nonce),
        NonceRule::FreshAndMatchesReference => match nonce {
            Some(n) => !all_zero(f.key_nonce) && f.key_nonce == n,
            None => true,
        },
    }
}

/// The frame's IV meets the rule.
pub open spec fn spec_iv_ok(rule: IvRule, f: FrameModel) -> bool {
    match rule {
        IvRule::Zeroed => all_zero(f.key_iv),
        IvRule::ZeroedFromVersion(v) => f.version < v || all_zero(f.key_iv),
    }
}

/// Applies one message's requirement table to a frame: the control bits in
/// a fixed order, then the nonce, the IV, the receive sequence counter and
/// the key data, rejecting at the first violation with the error kind of
/// the offending field, tagged with the message number.
pub open spec fn spec_validate_frame(
    req: FieldRequirements,
    f: FrameModel,
    nonce: Option<Seq<u8>>,
    msg_no: MessageNumber,
) -> Result<(), Error> {
    if req.install matches Some(b) && f.key_info.install != b {
        Err(Error::InvalidInstallBitValue(msg_no))
    } else if req.key_ack matches Some(b) && f.key_info.key_ack != b {
        Err(Error::InvalidKeyAckBitValue(msg_no))
    } else if req.key_mic matches Some(b) && f.key_info.key_mic != b {
        Err(Error::InvalidKeyMicBitValue(msg_no))
    } else if req.secure matches Some(b) && f.key_info.secure != b {
        Err(Error::InvalidSecureBitValue(msg_no))
    } else if req.error matches Some(b) && f.key_info.error != b {
        Err(Error::InvalidErrorBitValue(msg_no))
    } else if req.request matches Some(b) && f.key_info.request != b {
        Err(Error::InvalidRequestBitValue(msg_no))
    } else if req.encrypted_key_data matches Some(b) && f.key_info.encrypted_key_data != b {
        Err(Error::InvalidEncryptedKeyDataBitValue(msg_no))
    } else if !spec_nonce_ok(req.nonce, f, nonce) {
        Err(Error::InvalidNonce(msg_no))
    } else if !spec_iv_ok(req.iv, f) {
        Err(Error::InvalidIv(f.version, msg_no))
    } else if req.rsc_must_be_zero && f.key_rsc != 0 {
        Err(Error::InvalidRsc(msg_no))
    } else if req.key_data_must_be_nonempty && f.key_data_len == 0 {
        Err(Error::EmptyKeyData(msg_no))
    } else {
        Ok(())
    }
}

/// Validation rule for the first message. The MIC bit is tolerated either
/// way (`msg1_tolerates_key_mic_bit`).
pub open spec fn spec_validate_message_1(f: FrameModel) -> Result<(), Error> {
    spec_validate_frame(
        message_requirements(MessageNumber::Message1),
        f,
        None,
        MessageNumber::Message1,
    )
}

/// Validation rule for the second message.
pub open spec fn spec_validate_message_2(f: FrameModel) -> Result<(), Error> {
    spec_validate_frame(
        message_requirements(MessageNumber::Message2),
        f,
        None,
        MessageNumber::Message2,
    )
}

/// Validation rule for the third message; `nonce` is the reference nonce
/// the caller expects the frame to carry, when it knows one.
pub open spec fn spec_validate_message_3(f: FrameModel, nonce: Option<Seq<u8>>) -> Result<
    (),
    Error,
> {
    spec_validate_frame(
        message_requirements(MessageNumber::Message3),
        f,
        nonce,
        MessageNumber::Message3,
    )
}

/// Validation rule for the fourth message.
pub open spec fn spec_validate_message_4(f: FrameModel) -> Result<(), Error> {
    spec_validate_frame(
        message_requirements(MessageNumber::Message4),
        f,
        None,
        MessageNumber::Message4,
    )
}

/// The requirement table of one message.
pub fn requirements_for(msg_no: MessageNumber) -> (r: FieldRequirements)
    ensures
        r == message_requirements(msg_no),
{
    match msg_no {
        MessageNumber::Message1 => FieldRequirements {
            install: Some(false),
            key_ack: Some(true),
            key_mic: None,
            secure: Some(false),
            error: Some(false),
            request: Some(false),
            encrypted_key_data: Some(false),
            nonce: NonceRule::Fresh,
            iv: IvRule::Zeroed,
            rsc_must_be_zero: true,
            key_data_must_be_nonempty: false,
        },
        MessageNumber::Message2 => FieldRequirements {
            install: Some(false),
            key_ack: Some(false),
            key_mic: Some(true),
            secure: Some(false),
            error: Some(false),
            request: Some(false),
            encrypted_key_data: Some(false),
            nonce: NonceRule::Fresh,
            iv: IvRule::Zeroed,
            rsc_must_be_zero: true,
            key_data_must_be_nonempty: false,
        },
        MessageNumber::Message3 => FieldRequirements {
            install: Some(true),
            key_ack: Some(true),
            key_mic: Some(true),
            secure: Some(true),
            error: Some(false),
            request: Some(false),
            encrypted_key_data: Some(true),
            nonce: NonceRule::FreshAndMatchesReference,
            iv: IvRule::ZeroedFromVersion(PROTOCOL_VERSION_IEEE_802_1X_2010),
            rsc_must_be_zero: false,
            key_data_must_be_nonempty: true,
        },
        MessageNumber::Message4 => FieldRequirements {
            install: Some(false),
            key_ack: Some(false),
            key_mic: Some(true),
            secure: Some(true),
            error: Some(false),
            request: Some(false),
            encrypted_key_data: Some(false),
            nonce: NonceRule::Ignored,
            iv: IvRule::Zeroed,
            rsc_must_be_zero: true,
            key_data_must_be_nonempty: false,
        },
    }
}

/// The caller-supplied reference nonce as a sequence.
pub open spec fn spec_opt_nonce(nonce: Option<&[u8]>) -> Option<Seq<u8>> {
    match nonce {
        Some(n) => Some(n@),
        None => None,
    }
}

/// Checks one bit requirement.
fn bit_ok(req: Option<bool>, bit: bool) -> (r: bool)
    ensures
        r == !(req matches Some(b) && bit != b),
{
    match req {
        Some(b) => bit == b,
        None => true,
    }
}

/// Applies one message's requirement table to a frame, as
/// `spec_validate_frame` says.
pub fn validate_frame(
    frame: &KeyFrame,
    req: FieldRequirements,
    nonce: Option<&[u8]>,
    msg_no: MessageNumber,
) -> (r: Result<(), Error>)
    ensures
        r == spec_validate_frame(req, frame@, spec_opt_nonce(nonce), msg_no),
{
    if !bit_ok(req.install, frame.key_info.install) {
        Err(Error::InvalidInstallBitValue(msg_no))
    } else if !bit_ok(req.key_ack, frame.key_info.key_ack) {
        Err(Error::InvalidKeyAckBitValue(msg_no))
    } else if !bit_ok(req.key_mic, frame.key_info.key_mic) {
        Err(Error::InvalidKeyMicBitValue(msg_no))
    } else if !bit_ok(req.secure, frame.key_info.secure) {
        Err(Error::InvalidSecureBitValue(msg_no))
    } else if !bit_ok(req.error, frame.key_info.error) {
        Err(Error::InvalidErrorBitValue(msg_no))
    } else if !bit_ok(req.request, frame.key_info.request) {
        Err(Error::InvalidRequestBitValue(msg_no))
    } else if !bit_ok(req.encrypted_key_data, frame.key_info.encrypted_key_data) {
        Err(Error::InvalidEncryptedKeyDataBitValue(msg_no))
    } else {
        let nonce_ok = match req.nonce {
            NonceRule::Ignored => true,
            NonceRule::Fresh => !is_zero(frame.key_nonce.as_slice()),
            NonceRule::FreshAndMatchesReference => match nonce {
                Some(n) => !is_zero(frame.key_nonce.as_slice()) && bytes_eq(
                    frame.key_nonce.as_slice(),
                    n,
                ),
                None => true,
            },
        };
        let iv_ok = match req.iv {
            IvRule::Zeroed => is_zero(frame.key_iv.as_slice()),
            IvRule::ZeroedFromVersion(v) => frame.version < v || is_zero(frame.key_iv.as_slice()),
        };
        if !nonce_ok {
            Err(Error::InvalidNonce(msg_no))
        } else if !iv_ok {
            Err(Error::InvalidIv(frame.version, msg_no))
        } else if req.rsc_must_be_zero && frame.key_rsc != 0 {
            Err(Error::InvalidRsc(msg_no))
        } else if req.key_data_must_be_nonempty && frame.key_data_len == 0 {
            Err(Error::EmptyKeyData(msg_no))
        } else {
            Ok(())
        }
    }
}

/// Checks the first message against `spec_validate_message_1`.
pub fn validate_message_1(frame: &KeyFrame) -> (r: Result<(), Error>)
    ensures
        r == spec_validate_message_1(frame@),
{
    validate_frame(
        frame,
        requirements_for(MessageNumber::Message1),
        None,
        MessageNumber::Message1,
    )
}

/// Checks the second message against `spec_validate_message_2`.
pub fn validate_message_2(frame: &KeyFrame) -> (r: Result<(), Error>)
    ensures
        r == spec_validate_message_2(frame@),
{
    validate_frame(
        frame,
        requirements_for(MessageNumber::Message2),
        None,
        MessageNumber::Message2,
    )
}

/// Checks the third message against `spec_validate_message_3`, comparing
/// the frame's nonce with `nonce` when one is supplied.
pub fn validate_message_3(frame: &KeyFrame, nonce: Option<&[u8]>) -> (r: Result<(), Error>)
    ensures
        r == spec_validate_message_3(frame@, spec_opt_nonce(nonce)),
{
    validate_frame(
        frame,
        requirements_for(MessageNumber::Message3),
        nonce,
        MessageNumber::Message3,
    )
}

/// Checks the fourth message against `spec_validate_message_4`.
pub fn validate_message_4(frame: &KeyFrame) -> (r: Result<(), Error>)
    ensures
        r == spec_validate_message_4(frame@),
{
    validate_frame(
        frame,
        requirements_for(MessageNumber::Message4),
        None,
        MessageNumber::Message4,
    )
}

/// Mathematical image of a [`Config`].
pub struct ConfigModel {
    pub role: Role,
    pub s_addr: Seq<u8>,
    pub s_rsne: RsneModel,
    pub a_addr: Seq<u8>,
    pub a_rsne: RsneModel,
}

/// The immutable binding of one handshake instance: the role it plays, the
/// station and peer link-layer addresses and their security-parameter
/// elements. Constructing a `Config` negotiates the two elements and fails
/// when they are incompatible.
#[derive(Debug, Clone, PartialEq)]
pub struct Config {
    pub role: Role,
    pub s_addr: [u8; 6],
    pub s_rsne: Rsne,
    pub a_addr: [u8; 6],
    pub a_rsne: Rsne,
}

impl View for Config {
    type V = ConfigModel;

    open spec fn view(&self) -> ConfigModel {
        ConfigModel {
            role: self.role,
            s_addr: self.s_addr@,
            s_rsne: self.s_rsne@,
            a_addr: self.a_addr@,
            a_rsne: self.a_rsne@,
        }
    }
}

impl Config {
    /// Binds a role, the two addresses and the two security-parameter
    /// elements; fails exactly when the elements cannot be negotiated.
    pub fn new(role: Role, s_addr: [u8; 6], s_rsne: Rsne, a_addr: [u8; 6], a_rsne: Rsne) -> (r:
        Result<Config, Error>)
        ensures
            r is Ok <==> compatible_rsnes(s_rsne@, a_rsne@),
            r matches Ok(c) ==> c@ == (ConfigModel {
                role,
                s_addr: s_addr@,
                s_rsne: s_rsne@,
                a_addr: a_addr@,
                a_rsne: a_rsne@,
            }),
            r matches Err(e) ==> e == Error::ConfigNegotiationFailed,
    {
        match NegotiatedRsne::negotiate(&s_rsne, &a_rsne) {
            Ok(_) => Ok(Config { role, s_addr, s_rsne, a_addr, a_rsne }),
            Err(e) => Err(e),
        }
    }
}

/// Which messages a role may legally receive: the Authenticator the
/// Supplicant's two, and the Supplicant the Authenticator's two.
pub open spec fn role_can_receive(role: Role, msg_no: MessageNumber) -> bool {
    match role {
        Role::Authenticator => msg_no == MessageNumber::Message2 || msg_no
            == MessageNumber::Message4,
        Role::Supplicant => msg_no == MessageNumber::Message1 || msg_no
            == MessageNumber::Message3,
    }
}

/// The validation rule for a classified message number; `nonce` is the
/// caller's reference nonce, read only for the third message.
pub open spec fn spec_validate(msg_no: MessageNumber, f: FrameModel, nonce: Option<Seq<u8>>) -> Result<
    (),
    Error,
> {
    match msg_no {
        MessageNumber::Message1 => spec_validate_message_1(f),
        MessageNumber::Message2 => spec_validate_message_2(f),
        MessageNumber::Message3 => spec_validate_message_3(f, nonce),
        MessageNumber::Message4 => spec_validate_message_4(f),
    }
}

#[verifier::external_type_specification]
#[verifier::external_body]
pub struct ExBytes(bytes::Bytes);

/// What a `bytes::Bytes` buffer holds.
pub uninterp spec fn bytes_content(b: bytes::Bytes) -> Seq<u8>;

/// Relies on `bytes::Bytes::from(Vec<u8>)`: the buffer holds exactly the
/// vector's bytes.
#[verifier::external_body]
fn bytes_from_vec(v: Vec<u8>) -> (b: bytes::Bytes)
    ensures
        bytes_content(b) == v@,
{
    bytes::Bytes::from(v)
}

/// Relies on `bytes::Bytes`'s deref to `[u8]`: a slice of the held bytes.
#[verifier::external_body]
fn bytes_as_slice(b: &bytes::Bytes) -> (r: &[u8])
    ensures
        r@ == bytes_content(*b),
{
    &b[..]
}

/// A key frame that has passed classification against the receiving role
/// and validation for its message number, together with an owned copy of
/// its decrypted key data. It lives only within one call into the facade.
pub struct FourwayHandshakeFrame<'a> {
    frame: &'a KeyFrame,
    kd_plaintext: bytes::Bytes,
}

impl<'a> FourwayHandshakeFrame<'a> {
    /// The wrapped frame.
    pub closed spec fn frame_model(&self) -> FrameModel {
        self.frame@
    }

    /// The decrypted key data.
    pub closed spec fn kd_model(&self) -> Seq<u8> {
        bytes_content(self.kd_plaintext)
    }

    /// Classifies and validates a verified frame for the receiving role:
    /// a message the role may not receive is rejected as unexpected, then
    /// the message's validation rule is applied, with `nonce` as the
    /// caller's reference nonce for the third message.
    pub fn from_verified(valid_frame: VerifiedKeyFrame<'a>, role: Role, nonce: Option<&[u8]>) -> (r:
        Result<FourwayHandshakeFrame<'a>, Error>)
        ensures
            ({
                let msg_no = spec_message_number(valid_frame.frame_model());
                if !role_can_receive(role, msg_no) {
                    r == Err::<FourwayHandshakeFrame<'a>, Error>(Error::UnexpectedMessage(msg_no))
                } else {
                    match spec_validate(msg_no, valid_frame.frame_model(), spec_opt_nonce(nonce)) {
                        Ok(()) => r matches Ok(h) && h.frame_model() == valid_frame.frame_model()
                            && h.kd_model() == valid_frame.kd_model(),
                        Err(e) => r == Err::<FourwayHandshakeFrame<'a>, Error>(e),
                    }
                }
            }),
    {
        let (frame, kd_plaintext) = valid_frame.into_parts();

        // Drop messages that the configured role may not receive.
        let msg_no = message_number(frame);
        let allowed = match role {
            Role::Authenticator => msg_no == MessageNumber::Message2 || msg_no
                == MessageNumber::Message4,
            Role::Supplicant => msg_no == MessageNumber::Message1 || msg_no
                == MessageNumber::Message3,
        };
        if !allowed {
            return Err(Error::UnexpectedMessage(msg_no));
        }

        // Explicit validation based on the frame's message number.
        let validation = match msg_no {
            MessageNumber::Message1 => validate_message_1(frame),
            MessageNumber::Message2 => validate_message_2(frame),
            MessageNumber::Message3 => validate_message_3(frame, nonce),
            MessageNumber::Message4 => validate_message_4(frame),
        };
        match validation {
            Ok(()) => Ok(FourwayHandshakeFrame { frame, kd_plaintext: bytes_from_vec(kd_plaintext) }),
            Err(e) => Err(e),
        }
    }

    /// The wrapped frame.
    pub fn get(&self) -> (r: &'a KeyFrame)
        ensures
            r@ == self.frame_model(),
    {
        self.frame
    }

    /// The decrypted key-data plaintext.
    pub fn key_data_plaintext(&self) -> (r: &[u8])
        ensures
            r@ == self.kd_model(),
    {
        bytes_as_slice(&self.kd_plaintext)
    }
}

/// Mathematical image of a [`Fourway`]: which role it plays and that
/// role's current state.
pub enum FourwayModel {
    Authenticator(authenticator::StateModel),
    Supplicant(supplicant::StateModel),
}

#[derive(Debug, PartialEq)]
enum RoleHandler {
    Authenticator(StateMachine<authenticator::State>),
    Supplicant(StateMachine<supplicant::State>),
}

/// How many fresh random bytes one inbound frame can consume: the
/// Authenticator may draw a group key, the Supplicant an SNonce.
pub open spec fn spec_fresh_len(m: FourwayModel) -> nat {
    match m {
        FourwayModel::Authenticator(_) => GTK_LEN as nat,
        FourwayModel::Supplicant(_) => NONCE_LEN as nat,
    }
}

/// The Supplicant's reference nonce: the ANonce it saw in the first
/// message, once it awaits the third.
pub open spec fn spec_anonce_of(m: supplicant::StateModel) -> Option<Seq<u8>> {
    match m {
        supplicant::StateModel::AwaitingMsg3 { anonce, .. } => Some(anonce),
        _ => None,
    }
}

/// The role-dependent initial state.
pub open spec fn spec_new(cfg: crate::fourway::ConfigModel, pmk: Seq<u8>) -> FourwayModel {
    match cfg.role {
        Role::Supplicant => FourwayModel::Supplicant(supplicant::StateModel::Idle { cfg, pmk }),
        Role::Authenticator => FourwayModel::Authenticator(
            authenticator::StateModel::Idle { cfg, pmk },
        ),
    }
}

/// The configuration the handshake carries, whichever role it plays.
pub open spec fn spec_destroy(m: FourwayModel) -> ConfigModel {
    match m {
        FourwayModel::Authenticator(am) => authenticator::spec_cfg(am),
        FourwayModel::Supplicant(sm) => supplicant::spec_cfg(sm),
    }
}

/// What one inbound frame does to the whole facade: classification first,
/// then the role check, then the message's validation rule (with the
/// Supplicant's remembered ANonce as the reference nonce for the third
/// message); a frame that fails any of them moves the role's machine to
/// `Failed` with a failure update; one that passes is dispatched to the
/// role's machine with `fresh` as the random bytes it may consume.
pub open spec fn spec_on_frame(
    m: FourwayModel,
    frame: FrameModel,
    kd: Seq<u8>,
    fresh: Seq<u8>,
) -> (FourwayModel, Seq<UpdateModel>, Result<(), Error>) {
    let msg_no = spec_message_number(frame);
    match m {
        FourwayModel::Authenticator(am) => {
            let gate = if !role_can_receive(Role::Authenticator, msg_no) {
                Err(Error::UnexpectedMessage(msg_no))
            } else {
                spec_validate(msg_no, frame, None)
            };
            match gate {
                Err(e) => (
                    FourwayModel::Authenticator(
                        authenticator::StateModel::Failed { cfg: authenticator::spec_cfg(am) },
                    ),
                    seq![UpdateModel::HandshakeFailed(e)],
                    Err(e),
                ),
                Ok(()) => {
                    let (am2, ups, res) = authenticator::spec_on_frame(am, frame, fresh);
                    (FourwayModel::Authenticator(am2), ups, res)
                },
            }
        },
        FourwayModel::Supplicant(sm) => {
            let gate = if !role_can_receive(Role::Supplicant, msg_no) {
                Err(Error::UnexpectedMessage(msg_no))
            } else {
                spec_validate(msg_no, frame, spec_anonce_of(sm))
            };
            match gate {
                Err(e) => (
                    FourwayModel::Supplicant(
                        supplicant::StateModel::Failed { cfg: supplicant::spec_cfg(sm) },
                    ),
                    seq![UpdateModel::HandshakeFailed(e)],
                    Err(e),
                ),
                Ok(()) => {
                    let (sm2, ups, res) = supplicant::spec_on_frame(sm, frame, kd, fresh);
                    (FourwayModel::Supplicant(sm2), ups, res)
                },
            }
        },
    }
}

/// One 4-Way Handshake instance: the facade that binds a configuration and
/// master key to the matching role state machine and feeds it classified,
/// validated frames.
#[derive(Debug, PartialEq)]
pub struct Fourway(RoleHandler);

impl Fourway {
    /// The role's state machine holds a state and, for the Authenticator,
    /// its replay counter can still be incremented.
    pub closed spec fn wf(&self) -> bool {
        match self.0 {
            RoleHandler::Authenticator(sm) => sm.holds_state() && authenticator::state_wf(
                sm.current()@,
            ),
            RoleHandler::Supplicant(sm) => sm.holds_state(),
        }
    }

    /// The facade's current model.
    pub closed spec fn model(&self) -> FourwayModel {
        match self.0 {
            RoleHandler::Authenticator(sm) => FourwayModel::Authenticator(sm.current()@),
            RoleHandler::Supplicant(sm) => FourwayModel::Supplicant(sm.current()@),
        }
    }

    /// Binds a configuration and pairwise master key to the role state
    /// machine that `cfg.role` selects, idle and ready.
    pub fn new(cfg: Config, pmk: Vec<u8>) -> (r: Result<Fourway, Error>)
        ensures
            r matches Ok(f) && f.wf() && f.model() == spec_new(cfg@, pmk@),
    {
        let handler = match cfg.role {
            Role::Supplicant => RoleHandler::Supplicant(
                StateMachine::new(supplicant::new(cfg, pmk)),
            ),
            Role::Authenticator => RoleHandler::Authenticator(
                StateMachine::new(authenticator::new(cfg, pmk)),
            ),
        };
        Ok(Fourway(handler))
    }

    /// Starts the handshake. An Authenticator draws a fresh 32-byte ANonce
    /// and steps its machine as `authenticator::spec_initiate` says; a
    /// Supplicant cannot initiate, so the call changes nothing (a
    /// documented limitation, not an error).
    pub fn initiate(&mut self, update_sink: &mut UpdateSink, key_replay_counter: u64) -> (r:
        Result<(), Error>)
        requires
            old(self).wf(),
            key_replay_counter + 2 <= u64::MAX,
        ensures
            final(self).wf(),
            r is Ok,
            match old(self).model() {
                FourwayModel::Authenticator(am) => exists|anonce: Seq<u8>|
                    #![trigger authenticator::spec_initiate(am, key_replay_counter, anonce)]
                    {
                        let (am2, ups) = authenticator::spec_initiate(
                            am,
                            key_replay_counter,
                            anonce,
                        );
                        &&& anonce.len() == NONCE_LEN
                        &&& final(self).model() == FourwayModel::Authenticator(am2)
                        &&& updates_view(final(update_sink)@) == updates_view(old(update_sink)@)
                            + ups
                    },
                FourwayModel::Supplicant(_) => final(self).model() == old(self).model()
                    && final(update_sink)@ == old(update_sink)@,
            },
    {
        match &mut self.0 {
            RoleHandler::Authenticator(sm) => {
                let anonce = random_bytes(NONCE_LEN);
                let s = sm.take_state();
                let (s2, mut ups) = s.initiate(key_replay_counter, anonce);
                sm.put_state(s2);
                proof {
                    crate::rsna::lemma_updates_view_concat(update_sink@, ups@);
                }
                update_sink.append(&mut ups);
                Ok(())
            },
            RoleHandler::Supplicant(_) => Ok(()),
        }
    }

    /// Feeds one integrity-verified frame through classification, the role
    /// check and validation, and on success dispatches it to the role's
    /// machine, which may draw fresh random bytes (the Authenticator a
    /// group key, the Supplicant an SNonce). The appended updates, the new
    /// state and the verdict are exactly `spec_on_frame`'s. Inbound replay
    /// counters are checked against the counter each machine carries in its
    /// state; `key_replay_counter` is the caller's own record of it.
    pub fn on_eapol_key_frame(
        &mut self,
        update_sink: &mut UpdateSink,
        key_replay_counter: u64,
        frame: VerifiedKeyFrame,
    ) -> (r: Result<(), Error>)
        requires
            old(self).wf(),
        ensures
            final(self).wf(),
            exists|fresh: Seq<u8>|
                #![trigger spec_on_frame(old(self).model(), frame.frame_model(), frame.kd_model(), fresh)]
                {
                    let (m2, ups, res) = spec_on_frame(
                        old(self).model(),
                        frame.frame_model(),
                        frame.kd_model(),
                        fresh,
                    );
                    &&& fresh.len() == spec_fresh_len(old(self).model())
                    &&& final(self).model() == m2
                    &&& updates_view(final(update_sink)@) == updates_view(old(update_sink)@) + ups
                    &&& r == res
                },
    {
        match &mut self.0 {
            RoleHandler::Authenticator(sm) => {
                match FourwayHandshakeFrame::from_verified(frame, Role::Authenticator, None) {
                    Err(e) => {
                        let s = sm.take_state();
                        let cfg = s.destroy();
                        sm.put_state(authenticator::State::Failed { cfg });
                        update_sink.push(SecAssocUpdate::HandshakeFailed(e));
                        proof {
                            let fresh = crate::eapol::zeros(GTK_LEN as nat);
                            assert(updates_view(update_sink@) =~= updates_view(
                                old(update_sink)@,
                            ) + spec_on_frame(
                                old(self).model(),
                                frame.frame_model(),
                                frame.kd_model(),
                                fresh,
                            ).1);
                        }
                        Err(e)
                    },
                    Ok(hf) => {
                        let gtk = random_bytes(GTK_LEN);
                        let ghost fresh0 = gtk@;
                        let s = sm.take_state();
                        let (s2, mut ups, res) = s.on_eapol_key_frame(hf.get(), gtk);
                        sm.put_state(s2);
                        proof {
                            crate::rsna::lemma_updates_view_concat(update_sink@, ups@);
                        }
                        update_sink.append(&mut ups);
                        proof {
                            let msg_no = spec_message_number(frame.frame_model());
                            assert(role_can_receive(Role::Authenticator, msg_no));
                            assert(spec_validate(msg_no, frame.frame_model(), None) is Ok);
                            let step = spec_on_frame(
                                old(self).model(),
                                frame.frame_model(),
                                frame.kd_model(),
                                fresh0,
                            );
                            assert(updates_view(update_sink@) == updates_view(old(update_sink)@)
                                + step.1);
                        }
                        res
                    },
                }
            },
            RoleHandler::Supplicant(sm) => {
                let anonce_cloned: Option<Vec<u8>> = match sm.state_ref().anonce() {
                    Some(v) => Some(copy_bytes(v.as_slice())),
                    None => None,
                };
                let nonce_ref: Option<&[u8]> = match &anonce_cloned {
                    Some(v) => Some(v.as_slice()),
                    None => None,
                };
                proof {
                    assert(spec_opt_nonce(nonce_ref) == spec_anonce_of(
                        old(self).model()->Supplicant_0,
                    ));
                }
                match FourwayHandshakeFrame::from_verified(frame, Role::Supplicant, nonce_ref) {
                    Err(e) => {
                        let s = sm.take_state();
                        let cfg = s.destroy();
                        sm.put_state(supplicant::State::Failed { cfg });
                        update_sink.push(SecAssocUpdate::HandshakeFailed(e));
                        proof {
                            let fresh = crate::eapol::zeros(NONCE_LEN as nat);
                            assert(updates_view(update_sink@) =~= updates_view(
                                old(update_sink)@,
                            ) + spec_on_frame(
                                old(self).model(),
                                frame.frame_model(),
                                frame.kd_model(),
                                fresh,
                            ).1);
                        }
                        Err(e)
                    },
                    Ok(hf) => {
                        let snonce = random_bytes(NONCE_LEN);
                        let ghost fresh0 = snonce@;
                        let s = sm.take_state();
                        let (s2, mut ups, res) = s.on_eapol_key_frame(
                            hf.get(),
                            hf.key_data_plaintext(),
                            snonce,
                        );
                        sm.put_state(s2);
                        proof {
                            crate::rsna::lemma_updates_view_concat(update_sink@, ups@);
                        }
                        update_sink.append(&mut ups);
                        proof {
                            let msg_no = spec_message_number(frame.frame_model());
                            assert(role_can_receive(Role::Supplicant, msg_no));
                            assert(spec_validate(
                                msg_no,
                                frame.frame_model(),
                                spec_anonce_of(old(self).model()->Supplicant_0),
                            ) is Ok);
                            let step = spec_on_frame(
                                old(self).model(),
                                frame.frame_model(),
                                frame.kd_model(),
                                fresh0,
                            );
                            assert(updates_view(update_sink@) == updates_view(old(update_sink)@)
                                + step.1);
                        }
                        res
                    },
                }
            },
        }
    }

    /// Consumes the handshake, extracting the immutable configuration and
    /// dropping every derived secret.
    pub fn destroy(self) -> (c: key_exchange::Config)
        requires
            self.wf(),
        ensures
            c matches key_exchange::Config::FourWayHandshake(cfg) && cfg@ == spec_destroy(
                self.model(),
            ),
    {
        match self.0 {
            RoleHandler::Supplicant(sm) => key_exchange::Config::FourWayHandshake(
                sm.into_state().destroy(),
            ),
            RoleHandler::Authenticator(sm) => key_exchange::Config::FourWayHandshake(
                sm.into_state().destroy(),
            ),
        }
    }
}

} // verus!
