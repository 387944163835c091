//! Driving a Supplicant-side handshake with hand-built frames: the IV
//! rules per message and protocol version, the key-data rules, and the
//! replay-counter rule.

use wlan_rsn::eapol::{KeyFrame, KeyInformation};
use wlan_rsn::fourway::{Config, Fourway, MessageNumber};
use wlan_rsn::kde::gtk_kde;
use wlan_rsn::rsna::{Role, SecAssocUpdate, UpdateSink, VerifiedKeyFrame};
use wlan_rsn::rsne::Rsne;
use wlan_rsn::Error;

fn test_rsne() -> Rsne {
    Rsne {
        group_data_cipher_suite: Some(4),
        pairwise_cipher_suites: vec![4],
        akm_suites: vec![2],
    }
}

fn test_config(role: Role) -> Config {
    Config::new(role, [1, 1, 1, 1, 1, 1], test_rsne(), [2, 2, 2, 2, 2, 2], test_rsne())
        .expect("a compatible configuration")
}

fn default_msg1() -> KeyFrame {
    KeyFrame {
        version: 2,
        key_info: KeyInformation {
            install: false,
            key_ack: true,
            key_mic: false,
            secure: false,
            error: false,
            request: false,
            encrypted_key_data: false,
        },
        key_nonce: vec![0xABu8; 32],
        key_iv: vec![0u8; 16],
        key_rsc: 0,
        key_replay_counter: 1,
        key_data_len: 0,
        key_data: vec![],
    }
}

struct TestEnv {
    supplicant: Fourway,
    anonce: Vec<u8>,
}

impl TestEnv {
    fn send_msg3<F: Fn(&mut KeyFrame)>(
        &mut self,
        update_sink: &mut UpdateSink,
        gtk: Vec<u8>,
        modify: F,
    ) -> Result<(), Error> {
        let key_data = gtk_kde(&gtk);
        let mut msg3 = KeyFrame {
            version: 2,
            key_info: KeyInformation {
                install: true,
                key_ack: true,
                key_mic: true,
                secure: true,
                error: false,
                request: false,
                encrypted_key_data: true,
            },
            key_nonce: self.anonce.clone(),
            key_iv: vec![0u8; 16],
            key_rsc: 0,
            key_replay_counter: 2,
            key_data_len: key_data.len() as u16,
            key_data,
        };
        modify(&mut msg3);
        let kd_plaintext = msg3.key_data.clone();
        let verified = VerifiedKeyFrame::new(&msg3, kd_plaintext);
        self.supplicant.on_eapol_key_frame(update_sink, 0, verified)
    }
}

fn send_msg1<F: Fn(&mut KeyFrame)>(
    update_sink: &mut UpdateSink,
    modify: F,
) -> (TestEnv, Result<(), Error>) {
    let mut msg1 = default_msg1();
    modify(&mut msg1);
    let mut supplicant =
        Fourway::new(test_config(Role::Supplicant), vec![0x33u8; 32]).expect("creating supplicant");
    let kd_plaintext = msg1.key_data.clone();
    let verified = VerifiedKeyFrame::new(&msg1, kd_plaintext);
    let result = supplicant.on_eapol_key_frame(update_sink, 0, verified);
    let anonce = msg1.key_nonce.clone();
    (TestEnv { supplicant, anonce }, result)
}

// First messages of the handshake must carry a zeroed IV in all protocol
// versions.

#[test]
fn test_random_iv_msg1_v1() {
    let mut update_sink = UpdateSink::default();
    let (_, msg1_result) = send_msg1(&mut update_sink, |msg1| {
        msg1.version = 1;
        msg1.key_iv = vec![0xFFu8; 16];
    });
    assert!(
        msg1_result.is_err(),
        "error, expected failure for first msg but result is: {:?}",
        msg1_result
    );
}

#[test]
fn test_random_iv_msg1_v2() {
    let mut update_sink = UpdateSink::default();
    let (_, msg1_result) = send_msg1(&mut update_sink, |msg1| {
        msg1.version = 2;
        msg1.key_iv = vec![0xFFu8; 16];
    });
    assert!(
        msg1_result.is_err(),
        "error, expected failure for first msg but result is: {:?}",
        msg1_result
    );
}

// EAPOL key frames may carry a random IV in the third message when an old
// protocol version is used; from the "802.1X-2010" revision on, the IV
// must be zeroed. Some access points violate this with the "802.1X-2004"
// revision, so random IVs are tolerated there too.

#[test]
fn test_random_iv_msg3_v1() {
    let mut update_sink = UpdateSink::default();
    let (mut env, msg1_result) = send_msg1(&mut update_sink, |_| {});
    assert!(
        msg1_result.is_ok(),
        "error, expected success for processing first msg but result is: {:?}",
        msg1_result
    );
    let msg3_result = env.send_msg3(&mut update_sink, vec![42u8; 16], |msg3| {
        msg3.version = 1;
        msg3.key_iv = vec![0xFFu8; 16];
    });
    assert!(
        msg3_result.is_ok(),
        "error, expected success for processing third msg but result is: {:?}",
        msg3_result
    );
}

#[test]
fn test_random_iv_msg3_v2() {
    let mut update_sink = UpdateSink::default();
    let (mut env, msg1_result) = send_msg1(&mut update_sink, |_| {});
    assert!(
        msg1_result.is_ok(),
        "error, expected success for processing first msg but result is: {:?}",
        msg1_result
    );
    let msg3_result = env.send_msg3(&mut update_sink, vec![42u8; 16], |msg3| {
        msg3.version = 2;
        msg3.key_iv = vec![0xFFu8; 16];
    });
    assert!(
        msg3_result.is_ok(),
        "error, expected success for processing third msg but result is: {:?}",
        msg3_result
    );
}

#[test]
fn test_zeroed_iv_msg3_v2() {
    let mut update_sink = UpdateSink::default();
    let (mut env, msg1_result) = send_msg1(&mut update_sink, |_| {});
    assert!(
        msg1_result.is_ok(),
        "error, expected success for processing first msg but result is: {:?}",
        msg1_result
    );
    let msg3_result = env.send_msg3(&mut update_sink, vec![42u8; 16], |msg3| {
        msg3.version = 2;
        msg3.key_iv = vec![0u8; 16];
    });
    assert!(
        msg3_result.is_ok(),
        "error, expected success for processing third msg but result is: {:?}",
        msg3_result
    );
}

#[test]
fn test_random_iv_msg3_v3() {
    let mut update_sink = UpdateSink::default();
    let (mut env, msg1_result) = send_msg1(&mut update_sink, |_| {});
    assert!(
        msg1_result.is_ok(),
        "error, expected success for processing first msg but result is: {:?}",
        msg1_result
    );
    let msg3_result = env.send_msg3(&mut update_sink, vec![42u8; 16], |msg3| {
        msg3.version = 3;
        msg3.key_iv = vec![0xFFu8; 16];
    });
    assert!(
        msg3_result.is_err(),
        "error, expected failure for third msg but result is: {:?}",
        msg3_result
    );
}

// The MIC bit of the first message is deliberately tolerated either way.

#[test]
fn msg1_with_zeroed_mic_bit_accepted() {
    let mut update_sink = UpdateSink::default();
    let (_, msg1_result) = send_msg1(&mut update_sink, |msg1| {
        msg1.key_info.key_mic = false;
    });
    assert_eq!(msg1_result, Ok(()));
}

#[test]
fn msg1_with_set_mic_bit_accepted() {
    let mut update_sink = UpdateSink::default();
    let (_, msg1_result) = send_msg1(&mut update_sink, |msg1| {
        msg1.key_info.key_mic = true;
    });
    assert_eq!(msg1_result, Ok(()));
}

#[test]
fn msg1_emits_msg2_with_mic_bit() {
    let mut update_sink = UpdateSink::default();
    let (_, msg1_result) = send_msg1(&mut update_sink, |_| {});
    assert_eq!(msg1_result, Ok(()));
    assert_eq!(update_sink.len(), 1);
    match &update_sink[0] {
        SecAssocUpdate::TxEapolKeyFrame(msg2) => {
            assert!(!msg2.key_info.install);
            assert!(!msg2.key_info.key_ack);
            assert!(msg2.key_info.key_mic);
            assert!(!msg2.key_info.secure);
            assert_eq!(msg2.key_replay_counter, 1);
            assert_eq!(msg2.key_nonce.len(), 32);
            assert!(msg2.key_nonce.iter().any(|&b| b != 0));
            assert_eq!(msg2.key_iv, vec![0u8; 16]);
        }
        other => panic!("expected an outbound second msg but got: {:?}", other),
    }
}

#[test]
fn msg1_with_zeroed_nonce_rejected() {
    let mut update_sink = UpdateSink::default();
    let (_, msg1_result) = send_msg1(&mut update_sink, |msg1| {
        msg1.key_nonce = vec![0u8; 32];
    });
    assert_eq!(msg1_result, Err(Error::InvalidNonce(MessageNumber::Message1)));
}

#[test]
fn msg1_with_nonzero_rsc_rejected() {
    let mut update_sink = UpdateSink::default();
    let (_, msg1_result) = send_msg1(&mut update_sink, |msg1| {
        msg1.key_rsc = 5;
    });
    assert_eq!(msg1_result, Err(Error::InvalidRsc(MessageNumber::Message1)));
}

#[test]
fn msg1_with_secure_bit_rejected() {
    let mut update_sink = UpdateSink::default();
    let (_, msg1_result) = send_msg1(&mut update_sink, |msg1| {
        msg1.key_info.secure = true;
    });
    assert_eq!(msg1_result, Err(Error::InvalidSecureBitValue(MessageNumber::Message1)));
}

#[test]
fn msg1_random_iv_reports_version_in_error() {
    let mut update_sink = UpdateSink::default();
    let (_, msg1_result) = send_msg1(&mut update_sink, |msg1| {
        msg1.version = 1;
        msg1.key_iv = vec![0xFFu8; 16];
    });
    assert_eq!(msg1_result, Err(Error::InvalidIv(1, MessageNumber::Message1)));
}

#[test]
fn msg3_with_empty_key_data_rejected() {
    let mut update_sink = UpdateSink::default();
    let (mut env, msg1_result) = send_msg1(&mut update_sink, |_| {});
    assert_eq!(msg1_result, Ok(()));
    let msg3_result = env.send_msg3(&mut update_sink, vec![42u8; 16], |msg3| {
        msg3.key_data_len = 0;
    });
    assert_eq!(msg3_result, Err(Error::EmptyKeyData(MessageNumber::Message3)));
}

#[test]
fn msg3_with_wrong_nonce_rejected() {
    let mut update_sink = UpdateSink::default();
    let (mut env, msg1_result) = send_msg1(&mut update_sink, |_| {});
    assert_eq!(msg1_result, Ok(()));
    let msg3_result = env.send_msg3(&mut update_sink, vec![42u8; 16], |msg3| {
        msg3.key_nonce = vec![0xCDu8; 32];
    });
    assert_eq!(msg3_result, Err(Error::InvalidNonce(MessageNumber::Message3)));
}

#[test]
fn msg3_replaying_msg1_counter_rejected() {
    let mut update_sink = UpdateSink::default();
    let (mut env, msg1_result) = send_msg1(&mut update_sink, |_| {});
    assert_eq!(msg1_result, Ok(()));
    let msg3_result = env.send_msg3(&mut update_sink, vec![42u8; 16], |msg3| {
        msg3.key_replay_counter = 1;
    });
    assert_eq!(msg3_result, Err(Error::InvalidKeyReplayCounter(MessageNumber::Message3)));
}

#[test]
fn msg3_without_group_key_in_key_data_rejected() {
    let mut update_sink = UpdateSink::default();
    let (mut env, msg1_result) = send_msg1(&mut update_sink, |_| {});
    assert_eq!(msg1_result, Ok(()));
    let msg3_result = env.send_msg3(&mut update_sink, vec![42u8; 16], |msg3| {
        // A lone RSNE-like element: no group-key encapsulation inside.
        msg3.key_data = vec![0x30, 0x02, 0x01, 0x00];
        msg3.key_data_len = 4;
    });
    assert_eq!(msg3_result, Err(Error::InvalidKeyDataContent(MessageNumber::Message3)));
}

#[test]
fn msg3_installs_pairwise_and_group_key_in_order() {
    let mut update_sink = UpdateSink::default();
    let (mut env, msg1_result) = send_msg1(&mut update_sink, |_| {});
    assert_eq!(msg1_result, Ok(()));
    let msg3_result = env.send_msg3(&mut update_sink, vec![42u8; 16], |_| {});
    assert_eq!(msg3_result, Ok(()));
    // After both messages: the outbound second msg, the outbound fourth
    // msg, then exactly one pairwise and one group key, in that order.
    assert_eq!(update_sink.len(), 4);
    match &update_sink[1] {
        SecAssocUpdate::TxEapolKeyFrame(msg4) => {
            assert!(msg4.key_info.key_mic);
            assert!(msg4.key_info.secure);
            assert_eq!(msg4.key_replay_counter, 2);
        }
        other => panic!("expected an outbound fourth msg but got: {:?}", other),
    }
    match &update_sink[2] {
        SecAssocUpdate::Key(wlan_rsn::key_exchange::Key::Ptk(ptk)) => {
            assert_eq!(ptk.len(), 48);
        }
        other => panic!("expected a pairwise key but got: {:?}", other),
    }
    match &update_sink[3] {
        SecAssocUpdate::Key(wlan_rsn::key_exchange::Key::Gtk(gtk)) => {
            assert_eq!(gtk, &vec![42u8; 16]);
        }
        other => panic!("expected a group key but got: {:?}", other),
    }
}

#[test]
fn msg3_key_data_may_carry_other_elements_first() {
    let mut update_sink = UpdateSink::default();
    let (mut env, msg1_result) = send_msg1(&mut update_sink, |_| {});
    assert_eq!(msg1_result, Ok(()));
    let msg3_result = env.send_msg3(&mut update_sink, vec![42u8; 16], |msg3| {
        let mut key_data = vec![0x30, 0x04, 0x01, 0x00, 0x00, 0x0F];
        key_data.extend_from_slice(&gtk_kde(&[42u8; 16]));
        msg3.key_data_len = key_data.len() as u16;
        msg3.key_data = key_data;
    });
    assert_eq!(msg3_result, Ok(()));
    let gtk_update = update_sink
        .iter()
        .find_map(|u| match u {
            SecAssocUpdate::Key(wlan_rsn::key_exchange::Key::Gtk(gtk)) => Some(gtk.clone()),
            _ => None,
        })
        .expect("a group key update");
    assert_eq!(gtk_update, vec![42u8; 16]);
}

#[test]
fn supplicant_rejects_msg2_as_unexpected() {
    let mut update_sink = UpdateSink::default();
    let mut supplicant =
        Fourway::new(test_config(Role::Supplicant), vec![0x33u8; 32]).expect("creating supplicant");
    let msg2 = KeyFrame {
        version: 2,
        key_info: KeyInformation {
            install: false,
            key_ack: false,
            key_mic: true,
            secure: false,
            error: false,
            request: false,
            encrypted_key_data: false,
        },
        key_nonce: vec![0x66u8; 32],
        key_iv: vec![0u8; 16],
        key_rsc: 0,
        key_replay_counter: 1,
        key_data_len: 0,
        key_data: vec![],
    };
    let verified = VerifiedKeyFrame::new(&msg2, vec![]);
    let result = supplicant.on_eapol_key_frame(&mut update_sink, 0, verified);
    assert_eq!(result, Err(Error::UnexpectedMessage(MessageNumber::Message2)));
}
