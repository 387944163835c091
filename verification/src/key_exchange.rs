//! Key-exchange methods and the keys they produce.
//!
//! `Method` is a closed variant type over the supported key-exchange
//! protocols, so that further protocols can be added without changing the
//! facade's calling contract; today only the 4-Way Handshake exists.

use crate::fourway;
use crate::fourway::Fourway;
use crate::rsna::{updates_view, Role, UpdateSink, VerifiedKeyFrame};
use crate::rsne::{compatible_rsnes, Rsne};
use crate::Error;
use vstd::prelude::*;

verus! {

/// Mathematical image of a [`Key`].
pub enum KeyModel {
    Pmk(Seq<u8>),
    Ptk(Seq<u8>),
    Gtk(Seq<u8>),
    Igtk(Seq<u8>),
    MicRx(Seq<u8>),
    MicTx(Seq<u8>),
    Smk(Seq<u8>),
    Stk(Seq<u8>),
}

/// A key produced by a key exchange.
#[derive(Debug, Clone, PartialEq)]
pub enum Key {
    Pmk(Vec<u8>),
    Ptk(Vec<u8>),
    Gtk(Vec<u8>),
    Igtk(Vec<u8>),
    MicRx(Vec<u8>),
    MicTx(Vec<u8>),
    Smk(Vec<u8>),
    Stk(Vec<u8>),
}

impl View for Key {
    type V = KeyModel;

    open spec fn view(&self) -> KeyModel {
        match self {
            Key::Pmk(k) => KeyModel::Pmk(k@),
            Key::Ptk(k) => KeyModel::Ptk(k@),
            Key::Gtk(k) => KeyModel::Gtk(k@),
            Key::Igtk(k) => KeyModel::Igtk(k@),
            Key::MicRx(k) => KeyModel::MicRx(k@),
            Key::MicTx(k) => KeyModel::MicTx(k@),
            Key::Smk(k) => KeyModel::Smk(k@),
            Key::Stk(k) => KeyModel::Stk(k@),
        }
    }
}

/// A key-exchange configuration: one variant per supported protocol.
pub enum Config {
    FourWayHandshake(fourway::Config),
}

impl Config {
    /// A 4-Way Handshake configuration; fails exactly when the two
    /// security-parameter elements cannot be negotiated.
    pub fn for_4way_handshake(
        role: Role,
        s_addr: [u8; 6],
        s_rsne: Rsne,
        a_addr: [u8; 6],
        a_rsne: Rsne,
    ) -> (r: Result<Config, Error>)
        ensures
            r is Ok <==> compatible_rsnes(s_rsne@, a_rsne@),
            r matches Ok(c) ==> c matches Config::FourWayHandshake(fc) && fc@
                == (fourway::ConfigModel {
                role,
                s_addr: s_addr@,
                s_rsne: s_rsne@,
                a_addr: a_addr@,
                a_rsne: a_rsne@,
            }),
            r matches Err(e) ==> e == Error::ConfigNegotiationFailed,
    {
        match fourway::Config::new(role, s_addr, s_rsne, a_addr, a_rsne) {
            Ok(c) => Ok(Config::FourWayHandshake(c)),
            Err(e) => Err(e),
        }
    }
}

/// A running key-exchange method: one variant per supported protocol.
pub enum Method {
    FourWayHandshake(Fourway),
}

impl Method {
    /// The method's machine is well formed.
    pub open spec fn wf(&self) -> bool {
        match self {
            Method::FourWayHandshake(hs) => hs.wf(),
        }
    }

    /// The wrapped handshake's model.
    pub open spec fn model(&self) -> fourway::FourwayModel {
        match self {
            Method::FourWayHandshake(hs) => hs.model(),
        }
    }

    /// Starts the method that the configuration selects. A configuration
    /// of an unrecognized kind would be refused with `UnknownKeyExchange`;
    /// every kind that exists today is recognized.
    pub fn from_config(cfg: Config, pmk: Vec<u8>) -> (r: Result<Method, Error>)
        ensures
            r matches Ok(m) && m.wf() && (cfg matches Config::FourWayHandshake(fc) ==> m.model()
                == fourway::spec_new(fc@, pmk@)),
    {
        match cfg {
            Config::FourWayHandshake(c) => match Fourway::new(c, pmk) {
                Ok(hs) => Ok(Method::FourWayHandshake(hs)),
                Err(e) => Err(e),
            },
        }
    }

    /// Feeds one integrity-verified frame to the wrapped method; the
    /// appended updates, the new state and the verdict are exactly those of
    /// `fourway::spec_on_frame`.
    pub fn on_eapol_key_frame(
        &mut self,
        update_sink: &mut UpdateSink,
        key_replay_counter: u64,
        frame: VerifiedKeyFrame,
    ) -> (r: Result<(), Error>)
        requires
            old(self).wf(),
        ensures
            final(self).wf(),
            exists|fresh: Seq<u8>|
                #![trigger fourway::spec_on_frame(old(self).model(), frame.frame_model(), frame.kd_model(), fresh)]
                {
                    let (m2, ups, res) = fourway::spec_on_frame(
                        old(self).model(),
                        frame.frame_model(),
                        frame.kd_model(),
                        fresh,
                    );
                    &&& fresh.len() == fourway::spec_fresh_len(old(self).model())
                    &&& final(self).model() == m2
                    &&& updates_view(final(update_sink)@) == updates_view(old(update_sink)@) + ups
                    &&& r == res
                },
    {
        match self {
            Method::FourWayHandshake(hs) => hs.on_eapol_key_frame(
                update_sink,
                key_replay_counter,
                frame,
            ),
        }
    }
}

} // verus!
