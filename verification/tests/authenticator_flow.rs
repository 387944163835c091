//! Driving an Authenticator-side handshake end to end: initiation, the
//! answer to the second message, key installation on the fourth, the
//! uninitiated case and the replay case.

use wlan_rsn::eapol::{KeyFrame, KeyInformation};
use wlan_rsn::fourway::{Config, Fourway, MessageNumber};
use wlan_rsn::key_exchange::Key;
use wlan_rsn::rsna::{Role, SecAssocUpdate, UpdateSink, VerifiedKeyFrame};
use wlan_rsn::rsne::Rsne;
use wlan_rsn::Error;

fn test_rsne() -> Rsne {
    Rsne {
        group_data_cipher_suite: Some(4),
        pairwise_cipher_suites: vec![4],
        akm_suites: vec![2],
    }
}

fn authenticator() -> Fourway {
    let cfg = Config::new(
        Role::Authenticator,
        [1, 1, 1, 1, 1, 1],
        test_rsne(),
        [2, 2, 2, 2, 2, 2],
        test_rsne(),
    )
    .expect("a compatible configuration");
    Fourway::new(cfg, vec![0x33u8; 32]).expect("creating authenticator")
}

fn msg2_echoing(krc: u64) -> KeyFrame {
    KeyFrame {
        version: 2,
        key_info: KeyInformation {
            install: false,
            key_ack: false,
            key_mic: true,
            secure: false,
            error: false,
            request: false,
            encrypted_key_data: false,
        },
        key_nonce: vec![0x66u8; 32],
        key_iv: vec![0u8; 16],
        key_rsc: 0,
        key_replay_counter: krc,
        key_data_len: 0,
        key_data: vec![],
    }
}

fn msg4_echoing(krc: u64) -> KeyFrame {
    KeyFrame {
        version: 2,
        key_info: KeyInformation {
            install: false,
            key_ack: false,
            key_mic: true,
            secure: true,
            error: false,
            request: false,
            encrypted_key_data: false,
        },
        key_nonce: vec![0u8; 32],
        key_iv: vec![0u8; 16],
        key_rsc: 0,
        key_replay_counter: krc,
        key_data_len: 0,
        key_data: vec![],
    }
}

fn tx_frame(update: &SecAssocUpdate) -> &KeyFrame {
    match update {
        SecAssocUpdate::TxEapolKeyFrame(f) => f,
        other => panic!("expected an outbound frame but got: {:?}", other),
    }
}

#[test]
fn uninitiated_authenticator_rejects_valid_msg2() {
    let mut sink = UpdateSink::default();
    let mut auth = authenticator();
    let msg2 = msg2_echoing(1);
    let verified = VerifiedKeyFrame::new(&msg2, vec![]);
    let result = auth.on_eapol_key_frame(&mut sink, 0, verified);
    assert_eq!(result, Err(Error::UnexpectedMessage(MessageNumber::Message2)));
    assert_eq!(sink.len(), 1);
    assert_eq!(
        sink[0],
        SecAssocUpdate::HandshakeFailed(Error::UnexpectedMessage(MessageNumber::Message2))
    );
}

#[test]
fn uninitiated_authenticator_rejects_msg1_for_role() {
    let mut sink = UpdateSink::default();
    let mut auth = authenticator();
    let mut msg1 = msg2_echoing(1);
    msg1.key_info.key_ack = true;
    msg1.key_info.key_mic = false;
    let verified = VerifiedKeyFrame::new(&msg1, vec![]);
    let result = auth.on_eapol_key_frame(&mut sink, 0, verified);
    assert_eq!(result, Err(Error::UnexpectedMessage(MessageNumber::Message1)));
}

#[test]
fn full_authenticator_handshake_installs_keys_in_order() {
    let mut sink = UpdateSink::default();
    let mut auth = authenticator();

    // Initiation emits the first message: acknowledgement without install.
    auth.initiate(&mut sink, 0).expect("initiate");
    assert_eq!(sink.len(), 1);
    let msg1 = tx_frame(&sink[0]).clone();
    assert!(msg1.key_info.key_ack);
    assert!(!msg1.key_info.install);
    assert_eq!(msg1.key_replay_counter, 1);

    // The peer answers with the second message, echoing the counter.
    let msg2 = msg2_echoing(msg1.key_replay_counter);
    let verified = VerifiedKeyFrame::new(&msg2, vec![]);
    auth.on_eapol_key_frame(&mut sink, 0, verified).expect("second msg");

    // That emits the third message: install, acknowledgement and secure.
    assert_eq!(sink.len(), 2);
    let msg3 = tx_frame(&sink[1]).clone();
    assert!(msg3.key_info.install);
    assert!(msg3.key_info.key_ack);
    assert!(msg3.key_info.secure);
    assert!(msg3.key_info.encrypted_key_data);
    assert_eq!(msg3.key_replay_counter, 2);
    assert_eq!(msg3.key_nonce, msg1.key_nonce);
    assert!(msg3.key_data_len > 0);

    // The peer answers with the fourth message; the keys are installed:
    // exactly one pairwise key and one group key, in that order.
    let msg4 = msg4_echoing(msg3.key_replay_counter);
    let verified = VerifiedKeyFrame::new(&msg4, vec![]);
    auth.on_eapol_key_frame(&mut sink, 0, verified).expect("fourth msg");
    assert_eq!(sink.len(), 4);
    let pairwise: Vec<usize> = sink
        .iter()
        .enumerate()
        .filter_map(|(i, u)| match u {
            SecAssocUpdate::Key(Key::Ptk(_)) => Some(i),
            _ => None,
        })
        .collect();
    let group: Vec<usize> = sink
        .iter()
        .enumerate()
        .filter_map(|(i, u)| match u {
            SecAssocUpdate::Key(Key::Gtk(_)) => Some(i),
            _ => None,
        })
        .collect();
    assert_eq!(pairwise.len(), 1);
    assert_eq!(group.len(), 1);
    assert!(pairwise[0] < group[0]);
}

#[test]
fn replayed_msg2_rejected_without_reemitting_msg3() {
    let mut sink = UpdateSink::default();
    let mut auth = authenticator();
    auth.initiate(&mut sink, 0).expect("initiate");
    let msg1 = tx_frame(&sink[0]).clone();

    let msg2 = msg2_echoing(msg1.key_replay_counter);
    let verified = VerifiedKeyFrame::new(&msg2, vec![]);
    auth.on_eapol_key_frame(&mut sink, 0, verified).expect("second msg");
    let n_before = sink.len();

    // Replay the very same second message.
    let replay = msg2_echoing(msg1.key_replay_counter);
    let verified = VerifiedKeyFrame::new(&replay, vec![]);
    let result = auth.on_eapol_key_frame(&mut sink, 0, verified);
    assert_eq!(result, Err(Error::UnexpectedMessage(MessageNumber::Message2)));
    let appended = &sink[n_before..];
    assert!(appended.iter().all(|u| !matches!(u, SecAssocUpdate::TxEapolKeyFrame(_))));
}

#[test]
fn msg2_with_stale_counter_rejected() {
    let mut sink = UpdateSink::default();
    let mut auth = authenticator();
    auth.initiate(&mut sink, 0).expect("initiate");
    let msg1 = tx_frame(&sink[0]).clone();

    // The second message must echo the counter the first one carried.
    let msg2 = msg2_echoing(msg1.key_replay_counter + 7);
    let verified = VerifiedKeyFrame::new(&msg2, vec![]);
    let result = auth.on_eapol_key_frame(&mut sink, 0, verified);
    assert_eq!(result, Err(Error::InvalidKeyReplayCounter(MessageNumber::Message2)));
}

#[test]
fn msg4_with_stale_counter_rejected() {
    let mut sink = UpdateSink::default();
    let mut auth = authenticator();
    auth.initiate(&mut sink, 0).expect("initiate");
    let msg1 = tx_frame(&sink[0]).clone();
    let msg2 = msg2_echoing(msg1.key_replay_counter);
    let verified = VerifiedKeyFrame::new(&msg2, vec![]);
    auth.on_eapol_key_frame(&mut sink, 0, verified).expect("second msg");
    let msg3 = tx_frame(&sink[1]).clone();

    // The fourth message must echo the counter the third one carried.
    let msg4 = msg4_echoing(msg3.key_replay_counter + 1);
    let verified = VerifiedKeyFrame::new(&msg4, vec![]);
    let result = auth.on_eapol_key_frame(&mut sink, 0, verified);
    assert_eq!(result, Err(Error::InvalidKeyReplayCounter(MessageNumber::Message4)));
}

#[test]
fn supplicant_cannot_initiate() {
    let mut sink = UpdateSink::default();
    let cfg = Config::new(
        Role::Supplicant,
        [1, 1, 1, 1, 1, 1],
        test_rsne(),
        [2, 2, 2, 2, 2, 2],
        test_rsne(),
    )
    .expect("a compatible configuration");
    let mut supplicant = Fourway::new(cfg, vec![0x33u8; 32]).expect("creating supplicant");
    assert_eq!(supplicant.initiate(&mut sink, 0), Ok(()));
    assert!(sink.is_empty());
}

#[test]
fn destroy_returns_the_configuration() {
    let cfg = Config::new(
        Role::Authenticator,
        [1, 1, 1, 1, 1, 1],
        test_rsne(),
        [2, 2, 2, 2, 2, 2],
        test_rsne(),
    )
    .expect("a compatible configuration");
    let auth = Fourway::new(cfg.clone(), vec![0x33u8; 32]).expect("creating authenticator");
    let wlan_rsn::key_exchange::Config::FourWayHandshake(returned) = auth.destroy();
    assert_eq!(returned, cfg);
}
