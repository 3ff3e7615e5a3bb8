use noise_wire::auth::{authenticate_message_from_bytes, AuthPayloadError, AuthenticateMessage};
use noise_wire::errors::{CommandError, HandshakeError, ReceiveMessageError, SendMessageError};
use noise_wire::session::{
    authentication_result, check_step, handshake_message, record_frame, record_header, record_length,
    unix_time_of, Phase, Step,
};
use noise_wire::wire::AUTH_MESSAGE_SIZE;

#[test]
fn auth_payload_layout() {
    let m = AuthenticateMessage { additional_data: vec![0xaa, 0xbb, 0xcc], unix_time: 0x01020304 };
    let v = m.to_vec().unwrap();
    assert_eq!(v.len(), 260);
    assert_eq!(v[0], 3);
    assert_eq!(&v[1..4], &[0xaa, 0xbb, 0xcc]);
    assert!(v[4..256].iter().all(|b| *b == 0));
    assert_eq!(&v[256..], &[1, 2, 3, 4]);
}

#[test]
fn auth_payload_round_trip() {
    for (len, t) in [(0usize, 0u32), (1, 1), (17, 1_500_000_000), (255, u32::MAX)] {
        let ad: Vec<u8> = (0..len).map(|i| (i * 7 + 1) as u8).collect();
        let m = AuthenticateMessage { additional_data: ad.clone(), unix_time: t };
        let back = authenticate_message_from_bytes(&m.to_vec().unwrap()).unwrap();
        assert_eq!(back.additional_data, ad);
        assert_eq!(back.unix_time, t);
    }
}

#[test]
fn auth_payload_too_long() {
    let m = AuthenticateMessage { additional_data: vec![1u8; 256], unix_time: 5 };
    assert_eq!(m.to_vec().err(), Some(AuthPayloadError::InvalidAuthPayload));
}

#[test]
fn auth_payload_wrong_size() {
    assert_eq!(
        authenticate_message_from_bytes(&[0u8; 259]).err(),
        Some(AuthPayloadError::InvalidAuthPayload)
    );
    assert_eq!(
        authenticate_message_from_bytes(&[0u8; 261]).err(),
        Some(AuthPayloadError::InvalidAuthPayload)
    );
    assert_eq!(
        authenticate_message_from_bytes(&[]).err(),
        Some(AuthPayloadError::InvalidAuthPayload)
    );
}

#[test]
fn auth_payload_padding_ignored() {
    let mut b = vec![0xffu8; AUTH_MESSAGE_SIZE];
    b[0] = 2;
    b[1] = 10;
    b[2] = 20;
    b[256] = 0;
    b[257] = 0;
    b[258] = 1;
    b[259] = 0;
    let m = authenticate_message_from_bytes(&b).unwrap();
    assert_eq!(m.additional_data, vec![10, 20]);
    assert_eq!(m.unix_time, 256);
}

#[test]
fn record_header_values() {
    assert_eq!(record_header(5), [0, 0, 0, 21]);
    assert_eq!(record_header(65519), [0, 0, 0xff, 0xff]);
    assert_eq!(record_length(&[0, 0, 0, 21]), 21);
    assert_eq!(record_length(&[1, 2, 3, 4]), 0x01020304);
    assert_eq!(record_length(&record_header(300)), 316);
}

#[test]
fn step_table() {
    assert!(check_step(true, Phase::Init, Step::ClientHandshake1));
    assert!(!check_step(false, Phase::Init, Step::ClientHandshake1));
    assert!(check_step(false, Phase::Init, Step::ServerReadHandshake1));
    assert!(check_step(true, Phase::Hs2Sent, Step::DataTransfer));
    assert!(!check_step(true, Phase::Hs2Received, Step::DataTransfer));
    assert!(check_step(false, Phase::Hs2Received, Step::DataTransfer));
    assert!(check_step(true, Phase::Transport, Step::Record));
    assert!(!check_step(false, Phase::Hs2Received, Step::Record));
    for step in [Step::ClientHandshake1, Step::ServerHandshake1, Step::DataTransfer, Step::Record] {
        assert!(!check_step(true, Phase::Invalid, step));
        assert!(!check_step(false, Phase::Invalid, step));
    }
}

#[test]
fn authentication_outcomes() {
    assert_eq!(authentication_result(true, true), Ok(()));
    assert_eq!(authentication_result(false, true), Err(HandshakeError::ClientAuthenticationError));
    assert_eq!(authentication_result(false, false), Err(HandshakeError::ServerAuthenticationError));
}

#[test]
fn error_texts() {
    assert_eq!(SendMessageError::InvalidMessageSize.to_string(), "Invalid message size.");
    assert_eq!(ReceiveMessageError::DecryptFail.message(), "Failure to encrypt.");
    assert_eq!(
        HandshakeError::ServerPrologueMismatchError.to_string(),
        "Error server received wrong prologue from client."
    );
    assert_eq!(CommandError::InvalidStateError.message(), "Encountered invalid state transition.");
    assert_eq!(HandshakeError::DataTransferFail.description(), "I'm a modem error.");
}

#[test]
fn unix_time_values() {
    assert_eq!(unix_time_of(None), 0);
    assert_eq!(unix_time_of(Some(1_700_000_000)), 1_700_000_000);
    assert_eq!(unix_time_of(Some(u32::MAX as u64)), u32::MAX);
    assert_eq!(unix_time_of(Some(1u64 << 32)), 0);
    assert_eq!(unix_time_of(Some((1u64 << 32) + 5)), 5);
}

#[test]
fn handshake_message_outcomes() {
    let ok: Result<[u8; 3], HandshakeError> =
        handshake_message(Ok(vec![7, 8, 9]), HandshakeError::ClientHandshakeNoise1Error);
    assert_eq!(ok, Ok([7, 8, 9]));
    let short: Result<[u8; 3], HandshakeError> =
        handshake_message(Ok(vec![7, 8]), HandshakeError::ClientHandshakeNoise1Error);
    assert_eq!(short, Err(HandshakeError::ClientHandshakeNoise1Error));
    let failed: Result<[u8; 3], HandshakeError> =
        handshake_message(Err(snow::Error::Input), HandshakeError::ServerHandshakeNoise2Error);
    assert_eq!(failed, Err(HandshakeError::ServerHandshakeNoise2Error));
}

#[test]
fn record_frame_order() {
    assert_eq!(record_frame(vec![1, 2], &[3, 4, 5]), vec![1, 2, 3, 4, 5]);
    assert_eq!(record_frame(vec![], &[]), Vec::<u8>::new());
}
