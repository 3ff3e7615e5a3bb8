use std::cell::RefCell;
use std::rc::Rc;

use ecdh_wrapper::{PrivateKey, PublicKey};
use noise_wire::errors::{HandshakeError, ReceiveMessageError, SendMessageError};
use noise_wire::session::{PeerAuthenticator, PeerCredentials, Phase, Session, SessionConfig};
use noise_wire::wire::{
    MAC_SIZE, NOISE_HANDSHAKE_MESSAGE1_SIZE, NOISE_HANDSHAKE_MESSAGE2_SIZE,
    NOISE_HANDSHAKE_MESSAGE3_SIZE, NOISE_MESSAGE_HEADER_SIZE, NOISE_PARAMS,
};

struct NaiveAuthenticator {}

impl PeerAuthenticator for NaiveAuthenticator {
    fn accepts(&self, _peer_credentials: PeerCredentials) -> bool {
        true
    }

    fn is_peer_valid(&self, _peer_credentials: &PeerCredentials) -> bool {
        true
    }
}

struct RejectingAuthenticator {}

impl PeerAuthenticator for RejectingAuthenticator {
    fn accepts(&self, _peer_credentials: PeerCredentials) -> bool {
        false
    }

    fn is_peer_valid(&self, _peer_credentials: &PeerCredentials) -> bool {
        false
    }
}

/// Accepts every peer and keeps what it was shown.
struct RecordingAuthenticator {
    seen: Rc<RefCell<Vec<(Vec<u8>, PublicKey)>>>,
}

impl PeerAuthenticator for RecordingAuthenticator {
    fn accepts(&self, _peer_credentials: PeerCredentials) -> bool {
        true
    }

    fn is_peer_valid(&self, peer_credentials: &PeerCredentials) -> bool {
        self.seen
            .borrow_mut()
            .push((peer_credentials.additional_data.clone(), peer_credentials.public_key));
        true
    }
}

fn generate_key() -> PrivateKey {
    let builder = snow::Builder::new(NOISE_PARAMS.parse().unwrap());
    let keypair = builder.generate_keypair().unwrap();
    PrivateKey::from_bytes(&keypair.private).unwrap()
}

fn pair_with<C: PeerAuthenticator, S: PeerAuthenticator>(
    client_auth: C,
    server_auth: S,
    server_ad: Vec<u8>,
) -> (Session<C>, Session<S>, PublicKey, PublicKey) {
    let server_key = generate_key();
    let client_key = generate_key();
    let server_public = server_key.public_key();
    let client_public = client_key.public_key();
    let server_config = SessionConfig {
        authenticator: server_auth,
        authentication_key: server_key,
        peer_public_key: None,
        additional_data: server_ad,
    };
    let server = Session::new(server_config, false).unwrap();
    let client_config = SessionConfig {
        authenticator: client_auth,
        authentication_key: client_key,
        peer_public_key: Some(server_public),
        additional_data: vec![],
    };
    let client = Session::new(client_config, true).unwrap();
    (client, server, client_public, server_public)
}

fn established() -> (Session<NaiveAuthenticator>, Session<NaiveAuthenticator>) {
    let (mut client, mut server, _, _) =
        pair_with(NaiveAuthenticator {}, NaiveAuthenticator {}, vec![]);
    let m1 = client.client_handshake1().unwrap();
    server.server_read_handshake1(&m1).unwrap();
    let m2 = server.server_handshake1().unwrap();
    client.client_read_handshake1(&m2).unwrap();
    let m3 = client.client_handshake2().unwrap();
    server.server_read_handshake2(&m3).unwrap();
    let server = server.data_transfer().unwrap();
    let client = client.data_transfer().unwrap();
    (client, server)
}

#[test]
fn session_handshake_test() {
    // server
    let server_keypair = generate_key();
    let authenticator = NaiveAuthenticator {};
    let server_config = SessionConfig {
        authenticator,
        authentication_key: server_keypair.clone(),
        peer_public_key: None,
        additional_data: vec![],
    };
    let mut server_session = Session::new(server_config, false).unwrap();

    // client
    let authenticator = NaiveAuthenticator {};
    let client_keypair = generate_key();
    let client_config = SessionConfig {
        authenticator,
        authentication_key: client_keypair,
        peer_public_key: Some(server_keypair.public_key()),
        additional_data: vec![],
    };
    let mut client_session = Session::new(client_config, true).unwrap();

    // handshake phase
    let client_mesg1 = client_session.client_handshake1().unwrap();
    server_session.server_read_handshake1(&client_mesg1).unwrap();
    let server_msg1 = server_session.server_handshake1().unwrap();
    client_session.client_read_handshake1(&server_msg1).unwrap();
    let client_mesg2 = client_session.client_handshake2().unwrap();
    server_session.server_read_handshake2(&client_mesg2).unwrap();

    // data transfer phase
    server_session = server_session.data_transfer().unwrap();
    client_session = client_session.data_transfer().unwrap();

    let payload1 = String::from("\"And 'Will to equality' -that itself shall henceforth be the name of virtue; and against everything that has power we will raise our outcry!\"");
    let message = payload1.into_bytes();
    let ciphertext = server_session.encrypt_message(message.clone()).unwrap();
    let _message_len = client_session
        .decrypt_message_header(ciphertext[..NOISE_MESSAGE_HEADER_SIZE].to_vec())
        .unwrap();
    let plaintext = client_session
        .decrypt_message(ciphertext[NOISE_MESSAGE_HEADER_SIZE..].to_vec())
        .unwrap();
    assert_eq!(message, plaintext);

    let payload2 = String::from("You preachers of equality, the tyrant-madness of impotence cries this in you for \"equality\": thus your most secret tyrant appetite disguies itself in words of virtue!");
    let message = payload2.into_bytes();
    let ciphertext = server_session.encrypt_message(message.clone()).unwrap();
    let _message_len = client_session
        .decrypt_message_header(ciphertext[..NOISE_MESSAGE_HEADER_SIZE].to_vec())
        .unwrap();
    let plaintext = client_session
        .decrypt_message(ciphertext[NOISE_MESSAGE_HEADER_SIZE..].to_vec())
        .unwrap();
    assert_eq!(message, plaintext);
}

#[test]
fn permissive_handshake_round_trip() {
    let (mut client, mut server) = established();
    assert_eq!(client.phase(), Phase::Transport);
    assert_eq!(server.phase(), Phase::Transport);
    let frame = server.encrypt_message(b"hello".to_vec()).unwrap();
    assert_eq!(frame.len(), 20 + 21);
    let len = client.decrypt_message_header(frame[..20].to_vec()).unwrap();
    assert_eq!(len, 21);
    let plain = client.decrypt_message(frame[20..20 + len as usize].to_vec()).unwrap();
    assert_eq!(plain, b"hello".to_vec());
}

#[test]
fn round_trip_from_initiator_to_responder() {
    let (mut client, mut server) = established();
    for n in [0usize, 1, 7, 1000] {
        let m: Vec<u8> = (0..n).map(|i| (i * 31 % 251) as u8).collect();
        let frame = client.encrypt_message(m.clone()).unwrap();
        assert_eq!(frame.len(), NOISE_MESSAGE_HEADER_SIZE + MAC_SIZE + n);
        let len = server.decrypt_message_header(frame[..20].to_vec()).unwrap();
        assert_eq!(len as usize, MAC_SIZE + n);
        let plain = server.decrypt_message(frame[20..].to_vec()).unwrap();
        assert_eq!(plain, m);
    }
}

#[test]
fn handshake_message_sizes() {
    let (mut client, mut server, _, _) =
        pair_with(NaiveAuthenticator {}, NaiveAuthenticator {}, vec![1, 2, 3]);
    let m1 = client.client_handshake1().unwrap();
    assert_eq!(m1.len(), NOISE_HANDSHAKE_MESSAGE1_SIZE);
    assert_eq!(m1[32], 0);
    server.server_read_handshake1(&m1).unwrap();
    let m2 = server.server_handshake1().unwrap();
    assert_eq!(m2.len(), NOISE_HANDSHAKE_MESSAGE2_SIZE);
    client.client_read_handshake1(&m2).unwrap();
    let m3 = client.client_handshake2().unwrap();
    assert_eq!(m3.len(), NOISE_HANDSHAKE_MESSAGE3_SIZE);
    server.server_read_handshake2(&m3).unwrap();
    assert_eq!(client.phase(), Phase::Hs2Sent);
    assert_eq!(server.phase(), Phase::Hs2Received);
}

#[test]
fn authenticators_see_peer_credentials() {
    let client_seen = Rc::new(RefCell::new(Vec::new()));
    let server_seen = Rc::new(RefCell::new(Vec::new()));
    let (mut client, mut server, client_public, server_public) = pair_with(
        RecordingAuthenticator { seen: client_seen.clone() },
        RecordingAuthenticator { seen: server_seen.clone() },
        b"provider-7".to_vec(),
    );
    let m1 = client.client_handshake1().unwrap();
    server.server_read_handshake1(&m1).unwrap();
    let m2 = server.server_handshake1_at(1_500_000_000).unwrap();
    client.client_read_handshake1(&m2).unwrap();
    let m3 = client.client_handshake2().unwrap();
    server.server_read_handshake2(&m3).unwrap();
    let client_view = client_seen.borrow();
    assert_eq!(client_view.len(), 1);
    assert_eq!(client_view[0].0, b"provider-7".to_vec());
    assert_eq!(client_view[0].1, server_public);
    let server_view = server_seen.borrow();
    assert_eq!(server_view.len(), 1);
    assert_eq!(server_view[0].0, Vec::<u8>::new());
    assert_eq!(server_view[0].1, client_public);
}

#[test]
fn rejecting_authenticator_initiator() {
    let (mut client, mut server, _, _) =
        pair_with(RejectingAuthenticator {}, NaiveAuthenticator {}, vec![]);
    let m1 = client.client_handshake1().unwrap();
    server.server_read_handshake1(&m1).unwrap();
    let m2 = server.server_handshake1().unwrap();
    assert_eq!(
        client.client_read_handshake1(&m2),
        Err(HandshakeError::ClientAuthenticationError)
    );
    assert_eq!(client.phase(), Phase::Invalid);
    assert_eq!(client.client_handshake2().err(), Some(HandshakeError::InvalidStateError));
    assert_eq!(client.client_read_handshake1(&m2), Err(HandshakeError::InvalidStateError));
    assert_eq!(client.data_transfer().err(), Some(HandshakeError::InvalidStateError));
}

#[test]
fn rejecting_authenticator_responder() {
    let (mut client, mut server, _, _) =
        pair_with(NaiveAuthenticator {}, RejectingAuthenticator {}, vec![]);
    let m1 = client.client_handshake1().unwrap();
    server.server_read_handshake1(&m1).unwrap();
    let m2 = server.server_handshake1().unwrap();
    client.client_read_handshake1(&m2).unwrap();
    let m3 = client.client_handshake2().unwrap();
    assert_eq!(
        server.server_read_handshake2(&m3),
        Err(HandshakeError::ServerAuthenticationError)
    );
    assert_eq!(server.phase(), Phase::Invalid);
}

#[test]
fn prologue_tamper() {
    let (mut client, mut server, _, _) =
        pair_with(NaiveAuthenticator {}, NaiveAuthenticator {}, vec![]);
    let mut m1 = client.client_handshake1().unwrap();
    assert_eq!(m1[NOISE_HANDSHAKE_MESSAGE1_SIZE - 1], 0x00);
    m1[NOISE_HANDSHAKE_MESSAGE1_SIZE - 1] = 0x01;
    assert_eq!(
        server.server_read_handshake1(&m1),
        Err(HandshakeError::ServerPrologueMismatchError)
    );
}

#[test]
fn every_wrong_prologue_byte_is_refused() {
    for b in 1u8..=255 {
        let (mut client, mut server, _, _) =
            pair_with(NaiveAuthenticator {}, NaiveAuthenticator {}, vec![]);
        let mut m1 = client.client_handshake1().unwrap();
        m1[NOISE_HANDSHAKE_MESSAGE1_SIZE - 1] = b;
        assert_eq!(
            server.server_read_handshake1(&m1),
            Err(HandshakeError::ServerPrologueMismatchError)
        );
        assert_eq!(server.phase(), Phase::Invalid);
    }
}

#[test]
fn truncated_or_corrupted_second_message() {
    let (mut client, mut server, _, _) =
        pair_with(NaiveAuthenticator {}, NaiveAuthenticator {}, vec![]);
    let m1 = client.client_handshake1().unwrap();
    server.server_read_handshake1(&m1).unwrap();
    let m2 = server.server_handshake1().unwrap();
    assert_eq!(
        client.client_read_handshake1(&m2[..m2.len() - 1]),
        Err(HandshakeError::ClientHandshakeNoise2Error)
    );

    for i in [0usize, 31, 32, 60, 100, NOISE_HANDSHAKE_MESSAGE2_SIZE - 1] {
        let (mut client, mut server, _, _) =
            pair_with(NaiveAuthenticator {}, NaiveAuthenticator {}, vec![]);
        let m1 = client.client_handshake1().unwrap();
        server.server_read_handshake1(&m1).unwrap();
        let mut m2 = server.server_handshake1().unwrap();
        m2[i] ^= 0x40;
        let r = client.client_read_handshake1(&m2);
        assert!(
            r == Err(HandshakeError::ClientHandshakeNoise2Error)
                || r == Err(HandshakeError::ClientAuthenticationError)
        );
    }
}

#[test]
fn no_peer_key_for_initiator() {
    let config = SessionConfig {
        authenticator: NaiveAuthenticator {},
        authentication_key: generate_key(),
        peer_public_key: None,
        additional_data: vec![],
    };
    assert_eq!(Session::new(config, true).err(), Some(HandshakeError::NoPeerKeyError));
}

#[test]
fn out_of_order_calls_are_refused() {
    let (mut client, mut server, _, _) =
        pair_with(NaiveAuthenticator {}, NaiveAuthenticator {}, vec![]);
    assert_eq!(server.client_handshake1().err(), Some(HandshakeError::InvalidStateError));
    assert_eq!(server.phase(), Phase::Invalid);
    assert_eq!(client.server_handshake1().err(), Some(HandshakeError::InvalidStateError));
    assert_eq!(client.phase(), Phase::Invalid);
}

#[test]
fn records_before_transport_are_refused() {
    let (mut client, mut server, _, _) =
        pair_with(NaiveAuthenticator {}, NaiveAuthenticator {}, vec![]);
    assert_eq!(client.encrypt_message(b"x".to_vec()), Err(SendMessageError::InvalidStateError));
    assert_eq!(
        server.decrypt_message_header(vec![0u8; 20]),
        Err(ReceiveMessageError::InvalidStateError)
    );

    let (mut client, mut server, _, _) =
        pair_with(NaiveAuthenticator {}, NaiveAuthenticator {}, vec![]);
    let m1 = client.client_handshake1().unwrap();
    server.server_read_handshake1(&m1).unwrap();
    let m2 = server.server_handshake1().unwrap();
    client.client_read_handshake1(&m2).unwrap();
    let m3 = client.client_handshake2().unwrap();
    server.server_read_handshake2(&m3).unwrap();
    assert_eq!(server.decrypt_message(vec![0u8; 30]), Err(ReceiveMessageError::InvalidStateError));
    assert_eq!(client.encrypt_message(vec![]), Err(SendMessageError::InvalidStateError));
}

#[test]
fn failure_is_terminal() {
    let (mut client, mut server) = established();
    assert_eq!(
        client.decrypt_message_header(vec![0u8; 20]),
        Err(ReceiveMessageError::DecryptFail)
    );
    let frame = server.encrypt_message(b"later".to_vec()).unwrap();
    assert_eq!(
        client.decrypt_message_header(frame.clone()),
        Err(ReceiveMessageError::InvalidStateError)
    );
    assert_eq!(
        client.decrypt_message(frame[20..].to_vec()),
        Err(ReceiveMessageError::InvalidStateError)
    );
    assert_eq!(client.encrypt_message(vec![1]), Err(SendMessageError::InvalidStateError));
    assert_eq!(client.client_handshake1().err(), Some(HandshakeError::InvalidStateError));
}

#[test]
fn long_header_is_refused() {
    let (mut client, mut server) = established();
    let frame = server.encrypt_message(b"whole frame".to_vec()).unwrap();
    assert_eq!(
        client.decrypt_message_header(frame),
        Err(ReceiveMessageError::InvalidMessageSize)
    );
    assert_eq!(client.phase(), Phase::Invalid);
}

#[test]
fn short_header_is_refused() {
    let (mut client, _server) = established();
    assert_eq!(
        client.decrypt_message_header(vec![0u8; 19]),
        Err(ReceiveMessageError::InvalidMessageSize)
    );
    assert_eq!(client.phase(), Phase::Invalid);
}

#[test]
fn oversize_record() {
    let (_client, mut server) = established();
    assert_eq!(
        server.encrypt_message(vec![7u8; 65520]),
        Err(SendMessageError::InvalidMessageSize)
    );
}

#[test]
fn multi_record_stream() {
    let (mut client, mut server) = established();
    let payloads: Vec<Vec<u8>> =
        vec![vec![1u8; 1], (0..100).map(|i| i as u8).collect(), vec![9u8; 65519]];
    let frames: Vec<Vec<u8>> =
        payloads.iter().map(|p| server.encrypt_message(p.clone()).unwrap()).collect();
    for (p, f) in payloads.iter().zip(frames.iter()) {
        let len = client.decrypt_message_header(f[..20].to_vec()).unwrap();
        assert_eq!(len as usize, MAC_SIZE + p.len());
        let plain = client.decrypt_message(f[20..20 + len as usize].to_vec()).unwrap();
        assert_eq!(&plain, p);
    }
}

#[test]
fn second_header_before_first_payload_fails() {
    let (mut client, mut server) = established();
    let f1 = server.encrypt_message(vec![1u8; 10]).unwrap();
    let f2 = server.encrypt_message(vec![2u8; 10]).unwrap();
    client.decrypt_message_header(f1[..20].to_vec()).unwrap();
    assert_eq!(
        client.decrypt_message_header(f2[..20].to_vec()),
        Err(ReceiveMessageError::DecryptFail)
    );
}

#[test]
fn out_of_order_records_fail() {
    let (mut client, mut server) = established();
    let f1 = server.encrypt_message(b"first".to_vec()).unwrap();
    let f2 = server.encrypt_message(b"second".to_vec()).unwrap();
    let _f3 = server.encrypt_message(b"third".to_vec()).unwrap();
    assert_eq!(
        client.decrypt_message_header(f2[..20].to_vec()),
        Err(ReceiveMessageError::DecryptFail)
    );
    assert_eq!(
        client.decrypt_message_header(f1[..20].to_vec()),
        Err(ReceiveMessageError::InvalidStateError)
    );
}
