//! Negotiating security-parameter elements, the key-exchange method
//! wrapper, the single-slot state container, and the verified-frame
//! plumbing.

use wlan_rsn::eapol::{KeyFrame, KeyInformation};
use wlan_rsn::fourway::{Config, FourwayHandshakeFrame, MessageNumber};
use wlan_rsn::key_exchange;
use wlan_rsn::rsna::{Role, SecAssocUpdate, UpdateSink, VerifiedKeyFrame};
use wlan_rsn::rsne::{NegotiatedRsne, Rsne};
use wlan_rsn::state_machine::StateMachine;
use wlan_rsn::Error;

fn rsne(group: Option<u8>, pairwise: Vec<u8>, akms: Vec<u8>) -> Rsne {
    Rsne {
        group_data_cipher_suite: group,
        pairwise_cipher_suites: pairwise,
        akm_suites: akms,
    }
}

#[test]
fn negotiate_picks_first_common_suites() {
    let s = rsne(Some(4), vec![1, 4, 2], vec![5, 2]);
    let a = rsne(Some(4), vec![2, 4], vec![2]);
    let n = NegotiatedRsne::negotiate(&s, &a).expect("compatible");
    assert_eq!(n, NegotiatedRsne { group_data: 4, pairwise: 4, akm: 2 });
}

#[test]
fn negotiate_fails_without_common_pairwise_cipher() {
    let s = rsne(Some(4), vec![1, 2], vec![2]);
    let a = rsne(Some(4), vec![4], vec![2]);
    assert_eq!(NegotiatedRsne::negotiate(&s, &a), Err(Error::ConfigNegotiationFailed));
}

#[test]
fn negotiate_fails_on_group_cipher_mismatch() {
    let s = rsne(Some(4), vec![4], vec![2]);
    let a = rsne(Some(2), vec![4], vec![2]);
    assert_eq!(NegotiatedRsne::negotiate(&s, &a), Err(Error::ConfigNegotiationFailed));
    let s = rsne(None, vec![4], vec![2]);
    let a = rsne(Some(4), vec![4], vec![2]);
    assert_eq!(NegotiatedRsne::negotiate(&s, &a), Err(Error::ConfigNegotiationFailed));
}

#[test]
fn negotiate_fails_without_common_akm() {
    let s = rsne(Some(4), vec![4], vec![5]);
    let a = rsne(Some(4), vec![4], vec![2]);
    assert_eq!(NegotiatedRsne::negotiate(&s, &a), Err(Error::ConfigNegotiationFailed));
}

#[test]
fn config_new_rejects_incompatible_elements() {
    let s = rsne(Some(4), vec![1], vec![2]);
    let a = rsne(Some(4), vec![4], vec![2]);
    let r = Config::new(Role::Supplicant, [1; 6], s, [2; 6], a);
    assert_eq!(r, Err(Error::ConfigNegotiationFailed));
}

#[test]
fn method_runs_a_supplicant_from_config() {
    let s = rsne(Some(4), vec![4], vec![2]);
    let a = rsne(Some(4), vec![4], vec![2]);
    let cfg = key_exchange::Config::for_4way_handshake(Role::Supplicant, [1; 6], s, [2; 6], a)
        .expect("compatible");
    let mut method = key_exchange::Method::from_config(cfg, vec![0x33u8; 32]).expect("a method");

    let msg1 = KeyFrame {
        version: 2,
        key_info: KeyInformation {
            install: false,
            key_ack: true,
            key_mic: false,
            secure: false,
            error: false,
            request: false,
            encrypted_key_data: false,
        },
        key_nonce: vec![0xABu8; 32],
        key_iv: vec![0u8; 16],
        key_rsc: 0,
        key_replay_counter: 1,
        key_data_len: 0,
        key_data: vec![],
    };
    let mut sink = UpdateSink::default();
    let verified = VerifiedKeyFrame::new(&msg1, vec![]);
    let result = method.on_eapol_key_frame(&mut sink, 0, verified);
    assert_eq!(result, Ok(()));
    assert_eq!(sink.len(), 1);
    assert!(matches!(sink[0], SecAssocUpdate::TxEapolKeyFrame(_)));
}

#[test]
fn state_machine_replaces_and_extracts_state() {
    let mut machine = StateMachine::new(7u32);
    machine.replace_state(|s| s + 1);
    machine.replace_state(|s| s * 2);
    assert_eq!(machine.into_state(), 16);
}

#[test]
fn verified_frame_hands_key_data_through_unchanged() {
    let kd = vec![9u8, 8, 7, 6, 5];
    let msg2 = KeyFrame {
        version: 2,
        key_info: KeyInformation {
            install: false,
            key_ack: false,
            key_mic: true,
            secure: false,
            error: false,
            request: false,
            encrypted_key_data: false,
        },
        key_nonce: vec![0x66u8; 32],
        key_iv: vec![0u8; 16],
        key_rsc: 0,
        key_replay_counter: 1,
        key_data_len: 5,
        key_data: kd.clone(),
    };
    let verified = VerifiedKeyFrame::new(&msg2, kd.clone());
    assert_eq!(verified.get(), &msg2);
    assert_eq!(verified.key_data_plaintext(), &kd);

    let verified = VerifiedKeyFrame::new(&msg2, kd.clone());
    let handshake_frame = FourwayHandshakeFrame::from_verified(verified, Role::Authenticator, None)
        .expect("a conforming second msg");
    assert_eq!(handshake_frame.get(), &msg2);
    assert_eq!(handshake_frame.key_data_plaintext(), &kd[..]);
}

#[test]
fn from_verified_rejects_wrong_role_before_validation() {
    let msg2 = KeyFrame {
        version: 2,
        key_info: KeyInformation {
            install: false,
            key_ack: false,
            key_mic: true,
            secure: false,
            error: false,
            request: false,
            encrypted_key_data: false,
        },
        key_nonce: vec![0x66u8; 32],
        key_iv: vec![0u8; 16],
        key_rsc: 0,
        key_replay_counter: 1,
        key_data_len: 0,
        key_data: vec![],
    };
    let verified = VerifiedKeyFrame::new(&msg2, vec![]);
    let r = FourwayHandshakeFrame::from_verified(verified, Role::Supplicant, None);
    assert!(matches!(r, Err(Error::UnexpectedMessage(MessageNumber::Message2))));
}
