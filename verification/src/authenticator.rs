//! The Authenticator's role state machine: it initiates the handshake with
//! the first message, answers an accepted second message with the third,
//! and installs the derived keys once the fourth message arrives. Every
//! rejection is absorbing: the machine moves to `Failed` and emits a
//! failure update.

use crate::crypto::{derive_ptk, ptk_of};
use crate::eapol::{
    zero_vec, zeros, FrameModel, KeyFrame, KeyInformation, IV_LEN,
    PROTOCOL_VERSION_IEEE_802_1X_2004,
};
use crate::fourway::{message_number, spec_message_number, Config, ConfigModel, MessageNumber};
use crate::kde::{gtk_kde, gtk_kde_model, GTK_KDE_HEADER_LEN, GTK_KDE_MAX_KEY_LEN};
use crate::key_exchange::{Key, KeyModel};
use crate::rsna::{updates_view, SecAssocUpdate, UpdateModel, UpdateSink};
use crate::Error;
use vstd::prelude::*;

verus! {

/// Length in bytes of the group temporal key the Authenticator draws.
pub const GTK_LEN: usize = 16;

/// Mathematical image of a [`State`].
pub enum StateModel {
    Idle { cfg: ConfigModel, pmk: Seq<u8> },
    AwaitingMsg2 { cfg: ConfigModel, pmk: Seq<u8>, anonce: Seq<u8>, last_krc: u64 },
    AwaitingMsg4 { cfg: ConfigModel, ptk: Seq<u8>, gtk: Seq<u8>, last_krc: u64 },
    Completed { cfg: ConfigModel },
    Failed { cfg: ConfigModel },
}

/// The Authenticator's states. `Failed` is absorbing and reachable from
/// every state.
#[derive(Debug, Clone, PartialEq)]
pub enum State {
    Idle { cfg: Config, pmk: Vec<u8> },
    AwaitingMsg2 { cfg: Config, pmk: Vec<u8>, anonce: Vec<u8>, last_krc: u64 },
    AwaitingMsg4 { cfg: Config, ptk: Vec<u8>, gtk: Vec<u8>, last_krc: u64 },
    Completed { cfg: Config },
    Failed { cfg: Config },
}

impl View for State {
    type V = StateModel;

    open spec fn view(&self) -> StateModel {
        match self {
            State::Idle { cfg, pmk } => StateModel::Idle { cfg: cfg@, pmk: pmk@ },
            State::AwaitingMsg2 { cfg, pmk, anonce, last_krc } => StateModel::AwaitingMsg2 {
                cfg: cfg@,
                pmk: pmk@,
                anonce: anonce@,
                last_krc: *last_krc,
            },
            State::AwaitingMsg4 { cfg, ptk, gtk, last_krc } => StateModel::AwaitingMsg4 {
                cfg: cfg@,
                ptk: ptk@,
                gtk: gtk@,
                last_krc: *last_krc,
            },
            State::Completed { cfg } => StateModel::Completed { cfg: cfg@ },
            State::Failed { cfg } => StateModel::Failed { cfg: cfg@ },
        }
    }
}

/// The replay counter can still be incremented once for the third message.
pub open spec fn state_wf(m: StateModel) -> bool {
    match m {
        StateModel::AwaitingMsg2 { last_krc, .. } => last_krc < u64::MAX,
        _ => true,
    }
}

/// The configuration a state carries.
pub open spec fn spec_cfg(m: StateModel) -> ConfigModel {
    match m {
        StateModel::Idle { cfg, .. } => cfg,
        StateModel::AwaitingMsg2 { cfg, .. } => cfg,
        StateModel::AwaitingMsg4 { cfg, .. } => cfg,
        StateModel::Completed { cfg } => cfg,
        StateModel::Failed { cfg } => cfg,
    }
}

/// The first message: acknowledgement demanded, the fresh ANonce, and the
/// incremented replay counter; everything else zeroed.
pub open spec fn spec_msg1(anonce: Seq<u8>, krc: u64) -> FrameModel {
    FrameModel {
        version: PROTOCOL_VERSION_IEEE_802_1X_2004,
        key_info: KeyInformation {
            install: false,
            key_ack: true,
            key_mic: false,
            secure: false,
            error: false,
            request: false,
            encrypted_key_data: false,
        },
        key_nonce: anonce,
        key_iv: zeros(IV_LEN as nat),
        key_rsc: 0,
        key_replay_counter: krc,
        key_data_len: 0,
        key_data: Seq::empty(),
    }
}

/// The third message: install, acknowledgement, MIC, secure and encrypted
/// key data demanded; the same ANonce again, the incremented replay
/// counter, and the GTK encapsulation as key data.
pub open spec fn spec_msg3(anonce: Seq<u8>, krc: u64, gtk: Seq<u8>) -> FrameModel {
    FrameModel {
        version: PROTOCOL_VERSION_IEEE_802_1X_2004,
        key_info: KeyInformation {
            install: true,
            key_ack: true,
            key_mic: true,
            secure: true,
            error: false,
            request: false,
            encrypted_key_data: true,
        },
        key_nonce: anonce,
        key_iv: zeros(IV_LEN as nat),
        key_rsc: 0,
        key_replay_counter: krc,
        key_data_len: (gtk.len() + GTK_KDE_HEADER_LEN) as u16,
        key_data: gtk_kde_model(gtk),
    }
}

/// The absorbing rejection: `Failed`, one failure update, and the error.
pub open spec fn spec_fail(m: StateModel, e: Error) -> (StateModel, Seq<UpdateModel>, Result<
    (),
    Error,
>) {
    (StateModel::Failed { cfg: spec_cfg(m) }, seq![UpdateModel::HandshakeFailed(e)], Err(e))
}

/// What `initiate` does: from `Idle` it increments the replay counter,
/// emits the first message carrying the fresh ANonce and awaits the second
/// message; from every other state it changes nothing.
pub open spec fn spec_initiate(m: StateModel, krc: u64, anonce: Seq<u8>) -> (
    StateModel,
    Seq<UpdateModel>,
) {
    match m {
        StateModel::Idle { cfg, pmk } => (
            StateModel::AwaitingMsg2 { cfg, pmk, anonce, last_krc: (krc + 1) as u64 },
            seq![UpdateModel::TxEapolKeyFrame(spec_msg1(anonce, (krc + 1) as u64))],
        ),
        _ => (m, seq![]),
    }
}

/// What an inbound, already validated frame does to the Authenticator:
/// an expected second message whose replay counter echoes the one just
/// sent yields the third message (with the pairwise transient key derived
/// from the frame's SNonce and `gtk` as the fresh group key); an expected
/// fourth message that echoes the counter installs the pairwise and group
/// keys, in that order; everything else is an absorbing rejection.
pub open spec fn spec_on_frame(m: StateModel, frame: FrameModel, gtk: Seq<u8>) -> (
    StateModel,
    Seq<UpdateModel>,
    Result<(), Error>,
) {
    let msg_no = spec_message_number(frame);
    match m {
        StateModel::AwaitingMsg2 { cfg, pmk, anonce, last_krc } => {
            if msg_no != MessageNumber::Message2 {
                spec_fail(m, Error::UnexpectedMessage(msg_no))
            } else if frame.key_replay_counter != last_krc {
                spec_fail(m, Error::InvalidKeyReplayCounter(msg_no))
            } else {
                (
                    StateModel::AwaitingMsg4 {
                        cfg,
                        ptk: ptk_of(pmk, cfg.a_addr, cfg.s_addr, anonce, frame.key_nonce),
                        gtk,
                        last_krc: (last_krc + 1) as u64,
                    },
                    seq![
                        UpdateModel::TxEapolKeyFrame(spec_msg3(anonce, (last_krc + 1) as u64, gtk)),
                    ],
                    Ok(()),
                )
            }
        },
        StateModel::AwaitingMsg4 { cfg, ptk, gtk: gtk_held, last_krc } => {
            if msg_no != MessageNumber::Message4 {
                spec_fail(m, Error::UnexpectedMessage(msg_no))
            } else if frame.key_replay_counter != last_krc {
                spec_fail(m, Error::InvalidKeyReplayCounter(msg_no))
            } else {
                (
                    StateModel::Completed { cfg },
                    seq![
                        UpdateModel::Key(KeyModel::Ptk(ptk)),
                        UpdateModel::Key(KeyModel::Gtk(gtk_held)),
                    ],
                    Ok(()),
                )
            }
        },
        _ => spec_fail(m, Error::UnexpectedMessage(msg_no)),
    }
}

/// The initial state for a configuration and master key.
pub fn new(cfg: Config, pmk: Vec<u8>) -> (s: State)
    ensures
        s@ == (StateModel::Idle { cfg: cfg@, pmk: pmk@ }),
        state_wf(s@),
{
    State::Idle { cfg, pmk }
}

/// Moves to `Failed`, emitting the failure update.
fn fail_from(cfg: Config, e: Error) -> (r: (State, UpdateSink, Result<(), Error>))
    ensures
        r.0@ == (StateModel::Failed { cfg: cfg@ }),
        updates_view(r.1@) =~= seq![UpdateModel::HandshakeFailed(e)],
        r.2 == Err::<(), Error>(e),
{
    let mut sink: UpdateSink = Vec::new();
    sink.push(SecAssocUpdate::HandshakeFailed(e));
    (State::Failed { cfg }, sink, Err(e))
}

impl State {
    /// Starts the handshake as `spec_initiate` says. The replay counter
    /// must leave room for the two increments of the exchange.
    pub fn initiate(self, key_replay_counter: u64, anonce: Vec<u8>) -> (r: (State, UpdateSink))
        requires
            state_wf(self@),
            key_replay_counter + 2 <= u64::MAX,
        ensures
            r.0@ == spec_initiate(self@, key_replay_counter, anonce@).0,
            updates_view(r.1@) == spec_initiate(self@, key_replay_counter, anonce@).1,
            state_wf(r.0@),
    {
        match self {
            State::Idle { cfg, pmk } => {
                let krc_new = key_replay_counter + 1;
                let frame_nonce = crate::crypto::copy_bytes(anonce.as_slice());
                let frame = KeyFrame {
                    version: PROTOCOL_VERSION_IEEE_802_1X_2004,
                    key_info: KeyInformation {
                        install: false,
                        key_ack: true,
                        key_mic: false,
                        secure: false,
                        error: false,
                        request: false,
                        encrypted_key_data: false,
                    },
                    key_nonce: frame_nonce,
                    key_iv: zero_vec(IV_LEN),
                    key_rsc: 0,
                    key_replay_counter: krc_new,
                    key_data_len: 0,
                    key_data: Vec::new(),
                };
                proof {
                    assert(frame@ == spec_msg1(anonce@, krc_new));
                }
                let mut sink: UpdateSink = Vec::new();
                sink.push(SecAssocUpdate::TxEapolKeyFrame(frame));
                proof {
                    assert(updates_view(sink@) =~= seq![
                        UpdateModel::TxEapolKeyFrame(spec_msg1(anonce@, krc_new)),
                    ]);
                }
                (State::AwaitingMsg2 { cfg, pmk, anonce, last_krc: krc_new }, sink)
            },
            other => {
                let sink: UpdateSink = Vec::new();
                proof {
                    assert(updates_view(sink@) =~= Seq::<UpdateModel>::empty());
                }
                (other, sink)
            },
        }
    }

    /// Consumes an inbound, already validated frame as `spec_on_frame`
    /// says, with `gtk` as the freshly drawn group key.
    pub fn on_eapol_key_frame(self, frame: &KeyFrame, gtk: Vec<u8>) -> (r: (
        State,
        UpdateSink,
        Result<(), Error>,
    ))
        requires
            state_wf(self@),
            gtk@.len() <= GTK_KDE_MAX_KEY_LEN,
        ensures
            r.0@ == spec_on_frame(self@, frame@, gtk@).0,
            updates_view(r.1@) == spec_on_frame(self@, frame@, gtk@).1,
            r.2 == spec_on_frame(self@, frame@, gtk@).2,
            state_wf(r.0@),
    {
        let ghost g0 = gtk@;
        let msg_no = message_number(frame);
        match self {
            State::AwaitingMsg2 { cfg, pmk, anonce, last_krc } => {
                if msg_no != MessageNumber::Message2 {
                    fail_from(cfg, Error::UnexpectedMessage(msg_no))
                } else if frame.key_replay_counter != last_krc {
                    fail_from(cfg, Error::InvalidKeyReplayCounter(msg_no))
                } else {
                    let ghost a0 = anonce@;
                    let krc_new = last_krc + 1;
                    let ptk = derive_ptk(
                        pmk.as_slice(),
                        &cfg.a_addr,
                        &cfg.s_addr,
                        anonce.as_slice(),
                        frame.key_nonce.as_slice(),
                    );
                    let key_data = gtk_kde(gtk.as_slice());
                    let key_data_len = (gtk.len() + GTK_KDE_HEADER_LEN) as u16;
                    let msg3 = KeyFrame {
                        version: PROTOCOL_VERSION_IEEE_802_1X_2004,
                        key_info: KeyInformation {
                            install: true,
                            key_ack: true,
                            key_mic: true,
                            secure: true,
                            error: false,
                            request: false,
                            encrypted_key_data: true,
                        },
                        key_nonce: anonce,
                        key_iv: zero_vec(IV_LEN),
                        key_rsc: 0,
                        key_replay_counter: krc_new,
                        key_data_len,
                        key_data,
                    };
                    proof {
                        assert(msg3@ == spec_msg3(a0, krc_new, g0));
                    }
                    let mut sink: UpdateSink = Vec::new();
                    sink.push(SecAssocUpdate::TxEapolKeyFrame(msg3));
                    proof {
                        assert(updates_view(sink@) =~= seq![
                            UpdateModel::TxEapolKeyFrame(spec_msg3(a0, krc_new, g0)),
                        ]);
                    }
                    (State::AwaitingMsg4 { cfg, ptk, gtk, last_krc: krc_new }, sink, Ok(()))
                }
            },
            State::AwaitingMsg4 { cfg, ptk, gtk: gtk_held, last_krc } => {
                if msg_no != MessageNumber::Message4 {
                    fail_from(cfg, Error::UnexpectedMessage(msg_no))
                } else if frame.key_replay_counter != last_krc {
                    fail_from(cfg, Error::InvalidKeyReplayCounter(msg_no))
                } else {
                    let ghost p0 = ptk@;
                    let ghost gh0 = gtk_held@;
                    let mut sink: UpdateSink = Vec::new();
                    sink.push(SecAssocUpdate::Key(Key::Ptk(ptk)));
                    sink.push(SecAssocUpdate::Key(Key::Gtk(gtk_held)));
                    proof {
                        assert(updates_view(sink@) =~= seq![
                            UpdateModel::Key(KeyModel::Ptk(p0)),
                            UpdateModel::Key(KeyModel::Gtk(gh0)),
                        ]);
                    }
                    (State::Completed { cfg }, sink, Ok(()))
                }
            },
            State::Idle { cfg, .. } => fail_from(cfg, Error::UnexpectedMessage(msg_no)),
            State::Completed { cfg } => fail_from(cfg, Error::UnexpectedMessage(msg_no)),
            State::Failed { cfg } => fail_from(cfg, Error::UnexpectedMessage(msg_no)),
        }
    }

    /// Extracts the configuration, dropping every derived secret.
    pub fn destroy(self) -> (c: Config)
        ensures
            c@ == spec_cfg(self@),
    {
        match self {
            State::Idle { cfg, .. } => cfg,
            State::AwaitingMsg2 { cfg, .. } => cfg,
            State::AwaitingMsg4 { cfg, .. } => cfg,
            State::Completed { cfg } => cfg,
            State::Failed { cfg } => cfg,
        }
    }
}

} // verus!
