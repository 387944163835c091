//! The Supplicant's role state machine: it answers an accepted first
//! message with the second (deriving the pairwise transient key from its
//! fresh SNonce), and an accepted third message with the fourth, followed
//! by the pairwise and group keys. Every rejection is absorbing: the
//! machine moves to `Failed` and emits a failure update.

use crate::crypto::{derive_ptk, ptk_of};
use crate::eapol::{zero_vec, zeros, FrameModel, KeyFrame, KeyInformation, IV_LEN, NONCE_LEN};
use crate::fourway::{message_number, spec_message_number, Config, ConfigModel, MessageNumber};
use crate::kde::spec_extract_gtk;
use crate::key_exchange::{Key, KeyModel};
use crate::rsna::{updates_view, SecAssocUpdate, UpdateModel, UpdateSink};
use crate::Error;
use vstd::prelude::*;

verus! {

/// Mathematical image of a [`State`].
pub enum StateModel {
    Idle { cfg: ConfigModel, pmk: Seq<u8> },
    AwaitingMsg3 { cfg: ConfigModel, ptk: Seq<u8>, anonce: Seq<u8>, last_krc: u64 },
    Completed { cfg: ConfigModel },
    Failed { cfg: ConfigModel },
}

/// The Supplicant's states. `Failed` is absorbing and reachable from every
/// state.
#[derive(Debug, Clone, PartialEq)]
pub enum State {
    Idle { cfg: Config, pmk: Vec<u8> },
    AwaitingMsg3 { cfg: Config, ptk: Vec<u8>, anonce: Vec<u8>, last_krc: u64 },
    Completed { cfg: Config },
    Failed { cfg: Config },
}

impl View for State {
    type V = StateModel;

    open spec fn view(&self) -> StateModel {
        match self {
            State::Idle { cfg, pmk } => StateModel::Idle { cfg: cfg@, pmk: pmk@ },
            State::AwaitingMsg3 { cfg, ptk, anonce, last_krc } => StateModel::AwaitingMsg3 {
                cfg: cfg@,
                ptk: ptk@,
                anonce: anonce@,
                last_krc: *last_krc,
            },
            State::Completed { cfg } => StateModel::Completed { cfg: cfg@ },
            State::Failed { cfg } => StateModel::Failed { cfg: cfg@ },
        }
    }
}

/// The configuration a state carries.
pub open spec fn spec_cfg(m: StateModel) -> ConfigModel {
    match m {
        StateModel::Idle { cfg, .. } => cfg,
        StateModel::AwaitingMsg3 { cfg, .. } => cfg,
        StateModel::Completed { cfg } => cfg,
        StateModel::Failed { cfg } => cfg,
    }
}

/// The second message: MIC demanded, the fresh SNonce, and the first
/// message's replay counter echoed; the protocol revision answers in kind.
pub open spec fn spec_msg2(snonce: Seq<u8>, krc: u64, version: u8) -> FrameModel {
    FrameModel {
        version,
        key_info: KeyInformation {
            install: false,
            key_ack: false,
            key_mic: true,
            secure: false,
            error: false,
            request: false,
            encrypted_key_data: false,
        },
        key_nonce: snonce,
        key_iv: zeros(IV_LEN as nat),
        key_rsc: 0,
        key_replay_counter: krc,
        key_data_len: 0,
        key_data: Seq::empty(),
    }
}

/// The fourth message: MIC and secure demanded, the third message's replay
/// counter echoed, and nothing else set.
pub open spec fn spec_msg4(krc: u64, version: u8) -> FrameModel {
    FrameModel {
        version,
        key_info: KeyInformation {
            install: false,
            key_ack: false,
            key_mic: true,
            secure: true,
            error: false,
            request: false,
            encrypted_key_data: false,
        },
        key_nonce: zeros(NONCE_LEN as nat),
        key_iv: zeros(IV_LEN as nat),
        key_rsc: 0,
        key_replay_counter: krc,
        key_data_len: 0,
        key_data: Seq::empty(),
    }
}

/// The absorbing rejection: `Failed`, one failure update, and the error.
pub open spec fn spec_fail(m: StateModel, e: Error) -> (StateModel, Seq<UpdateModel>, Result<
    (),
    Error,
>) {
    (StateModel::Failed { cfg: spec_cfg(m) }, seq![UpdateModel::HandshakeFailed(e)], Err(e))
}

/// What an inbound, already validated frame does to the Supplicant: an
/// expected first message yields the second (with the pairwise transient
/// key derived from the frame's ANonce and the fresh `snonce`); an
/// expected third message whose replay counter is strictly greater than
/// the last accepted one and whose key data holds a group key yields the
/// fourth message and installs the pairwise and group keys, in that order;
/// everything else is an absorbing rejection.
pub open spec fn spec_on_frame(m: StateModel, frame: FrameModel, kd: Seq<u8>, snonce: Seq<u8>) -> (
    StateModel,
    Seq<UpdateModel>,
    Result<(), Error>,
) {
    let msg_no = spec_message_number(frame);
    match m {
        StateModel::Idle { cfg, pmk } => {
            if msg_no != MessageNumber::Message1 {
                spec_fail(m, Error::UnexpectedMessage(msg_no))
            } else {
                (
                    StateModel::AwaitingMsg3 {
                        cfg,
                        ptk: ptk_of(pmk, cfg.a_addr, cfg.s_addr, frame.key_nonce, snonce),
                        anonce: frame.key_nonce,
                        last_krc: frame.key_replay_counter,
                    },
                    seq![
                        UpdateModel::TxEapolKeyFrame(
                            spec_msg2(snonce, frame.key_replay_counter, frame.version),
                        ),
                    ],
                    Ok(()),
                )
            }
        },
        StateModel::AwaitingMsg3 { cfg, ptk, anonce, last_krc } => {
            if msg_no != MessageNumber::Message3 {
                spec_fail(m, Error::UnexpectedMessage(msg_no))
            } else if frame.key_replay_counter <= last_krc {
                spec_fail(m, Error::InvalidKeyReplayCounter(msg_no))
            } else {
                match spec_extract_gtk(kd) {
                    Some(gtk) => (
                        StateModel::Completed { cfg },
                        seq![
                            UpdateModel::TxEapolKeyFrame(
                                spec_msg4(frame.key_replay_counter, frame.version),
                            ),
                            UpdateModel::Key(KeyModel::Ptk(ptk)),
                            UpdateModel::Key(KeyModel::Gtk(gtk)),
                        ],
                        Ok(()),
                    ),
                    None => spec_fail(m, Error::InvalidKeyDataContent(msg_no)),
                }
            }
        },
        _ => spec_fail(m, Error::UnexpectedMessage(msg_no)),
    }
}

/// The initial state for a configuration and master key.
pub fn new(cfg: Config, pmk: Vec<u8>) -> (s: State)
    ensures
        s@ == (StateModel::Idle { cfg: cfg@, pmk: pmk@ }),
{
    State::Idle { cfg, pmk }
}

/// Moves to `Failed`, emitting the failure update.
fn fail_from(cfg: Config, e: Error) -> (r: (State, UpdateSink, Result<(), Error>))
    ensures
        r.0@ == (StateModel::Failed { cfg: cfg@ }),
        updates_view(r.1@) =~= seq![UpdateModel::HandshakeFailed(e)],
        r.2 == Err::<(), Error>(e),
{
    let mut sink: UpdateSink = Vec::new();
    sink.push(SecAssocUpdate::HandshakeFailed(e));
    (State::Failed { cfg }, sink, Err(e))
}

impl State {
    /// The ANonce this state remembers from the first message, if any; the
    /// facade checks the third message's nonce against it.
    pub fn anonce(&self) -> (r: Option<&Vec<u8>>)
        ensures
            match self@ {
                StateModel::AwaitingMsg3 { anonce, .. } => r matches Some(v) && v@ == anonce,
                _ => r is None,
            },
    {
        match self {
            State::AwaitingMsg3 { anonce, .. } => Some(anonce),
            _ => None,
        }
    }

    /// Consumes an inbound, already validated frame as `spec_on_frame`
    /// says, with `kd_plaintext` as its decrypted key data and `snonce` as
    /// the freshly drawn nonce.
    pub fn on_eapol_key_frame(self, frame: &KeyFrame, kd_plaintext: &[u8], snonce: Vec<u8>) -> (r: (
        State,
        UpdateSink,
        Result<(), Error>,
    ))
        ensures
            r.0@ == spec_on_frame(self@, frame@, kd_plaintext@, snonce@).0,
            updates_view(r.1@) == spec_on_frame(self@, frame@, kd_plaintext@, snonce@).1,
            r.2 == spec_on_frame(self@, frame@, kd_plaintext@, snonce@).2,
    {
        let ghost s0 = snonce@;
        let msg_no = message_number(frame);
        match self {
            State::Idle { cfg, pmk } => {
                if msg_no != MessageNumber::Message1 {
                    fail_from(cfg, Error::UnexpectedMessage(msg_no))
                } else {
                    let ptk = derive_ptk(
                        pmk.as_slice(),
                        &cfg.a_addr,
                        &cfg.s_addr,
                        frame.key_nonce.as_slice(),
                        snonce.as_slice(),
                    );
                    let anonce = crate::crypto::copy_bytes(frame.key_nonce.as_slice());
                    let msg2 = KeyFrame {
                        version: frame.version,
                        key_info: KeyInformation {
                            install: false,
                            key_ack: false,
                            key_mic: true,
                            secure: false,
                            error: false,
                            request: false,
                            encrypted_key_data: false,
                        },
                        key_nonce: snonce,
                        key_iv: zero_vec(IV_LEN),
                        key_rsc: 0,
                        key_replay_counter: frame.key_replay_counter,
                        key_data_len: 0,
                        key_data: Vec::new(),
                    };
                    proof {
                        assert(msg2@ == spec_msg2(s0, frame@.key_replay_counter, frame@.version));
                    }
                    let mut sink: UpdateSink = Vec::new();
                    sink.push(SecAssocUpdate::TxEapolKeyFrame(msg2));
                    proof {
                        assert(updates_view(sink@) =~= seq![
                            UpdateModel::TxEapolKeyFrame(
                                spec_msg2(s0, frame@.key_replay_counter, frame@.version),
                            ),
                        ]);
                    }
                    (
                        State::AwaitingMsg3 {
                            cfg,
                            ptk,
                            anonce,
                            last_krc: frame.key_replay_counter,
                        },
                        sink,
                        Ok(()),
                    )
                }
            },
            State::AwaitingMsg3 { cfg, ptk, anonce, last_krc } => {
                if msg_no != MessageNumber::Message3 {
                    fail_from(cfg, Error::UnexpectedMessage(msg_no))
                } else if frame.key_replay_counter <= last_krc {
                    fail_from(cfg, Error::InvalidKeyReplayCounter(msg_no))
                } else {
                    match crate::kde::extract_gtk(kd_plaintext) {
                        Some(gtk) => {
                            let ghost p0 = ptk@;
                            let ghost g0 = gtk@;
                            let msg4 = KeyFrame {
                                version: frame.version,
                                key_info: KeyInformation {
                                    install: false,
                                    key_ack: false,
                                    key_mic: true,
                                    secure: true,
                                    error: false,
                                    request: false,
                                    encrypted_key_data: false,
                                },
                                key_nonce: zero_vec(NONCE_LEN),
                                key_iv: zero_vec(IV_LEN),
                                key_rsc: 0,
                                key_replay_counter: frame.key_replay_counter,
                                key_data_len: 0,
                                key_data: Vec::new(),
                            };
                            proof {
                                assert(msg4@ == spec_msg4(frame@.key_replay_counter, frame@.version));
                            }
                            let mut sink: UpdateSink = Vec::new();
                            sink.push(SecAssocUpdate::TxEapolKeyFrame(msg4));
                            sink.push(SecAssocUpdate::Key(Key::Ptk(ptk)));
                            sink.push(SecAssocUpdate::Key(Key::Gtk(gtk)));
                            proof {
                                assert(updates_view(sink@) =~= seq![
                                    UpdateModel::TxEapolKeyFrame(
                                        spec_msg4(frame@.key_replay_counter, frame@.version),
                                    ),
                                    UpdateModel::Key(KeyModel::Ptk(p0)),
                                    UpdateModel::Key(KeyModel::Gtk(g0)),
                                ]);
                            }
                            (State::Completed { cfg }, sink, Ok(()))
                        },
                        None => fail_from(cfg, Error::InvalidKeyDataContent(msg_no)),
                    }
                }
            },
            State::Completed { cfg } => fail_from(cfg, Error::UnexpectedMessage(msg_no)),
            State::Failed { cfg } => fail_from(cfg, Error::UnexpectedMessage(msg_no)),
        }
    }

    /// Extracts the configuration, dropping every derived secret.
    pub fn destroy(self) -> (c: Config)
        ensures
            c@ == spec_cfg(self@),
    {
        match self {
            State::Idle { cfg, .. } => cfg,
            State::AwaitingMsg3 { cfg, .. } => cfg,
            State::Completed { cfg } => cfg,
            State::Failed { cfg } => cfg,
        }
    }
}

} // verus!
