//! The calls into the Noise engine, the constant-time comparator and the
//! clock that the session logic makes, each with what it relies on.

use snow::params::NoiseParams;
use snow::{Builder, HandshakeState, TransportState};
use subtle::ConstantTimeEq;
use vstd::prelude::*;
use crate::wire::{KEY_SIZE, MAC_SIZE, NOISE_MESSAGE_MAX_SIZE, NOISE_PARAMS};

verus! {

/// snow's parsed protocol name, carried from parsing to the builder.
#[verifier::external_type_specification]
#[verifier::external_body]
pub struct ExNoiseParams(snow::params::NoiseParams);

/// snow's handshake state, held by a session until its handshake is over.
#[verifier::external_type_specification]
#[verifier::external_body]
pub struct ExHandshakeState(snow::HandshakeState);

/// snow's transport state, held by a session in transport mode.
#[verifier::external_type_specification]
#[verifier::external_body]
pub struct ExTransportState(snow::TransportState);

/// snow's error, which the session maps to its own error kinds.
#[verifier::external_type_specification]
#[verifier::external_body]
pub struct ExNoiseError(snow::Error);

/// Relies on snow's `FromStr` for `NoiseParams`, which parses a protocol
/// name; the name of this protocol is one it accepts.
#[verifier::external_body]
pub(crate) fn parse_noise_params(name: &str) -> (r: Result<NoiseParams, snow::Error>)
    ensures
        name@ == NOISE_PARAMS@ ==> r is Ok,
{
    name.parse()
}

/// Relies on snow's `Builder` (`new` on the parsed `name`,
/// `local_private_key`, `remote_public_key`, `prologue`, `build_initiator`).
/// With 32-byte keys and this protocol's name every step succeeds: the
/// builder only checks key lengths and prerequisites, and the default
/// resolver supports X25519, ChaChaPoly and BLAKE2b.
#[verifier::external_body]
pub(crate) fn build_initiator(
    name: &str,
    local_private_key: &[u8],
    remote_public_key: &[u8],
    prologue: &[u8],
) -> (r: Result<HandshakeState, snow::Error>)
    requires
        local_private_key@.len() == KEY_SIZE,
        remote_public_key@.len() == KEY_SIZE,
    ensures
        name@ == NOISE_PARAMS@ ==> r is Ok,
{
    Builder::new(name.parse()?).local_private_key(local_private_key)?.remote_public_key(
        remote_public_key,
    )?.prologue(prologue)?.build_initiator()
}

/// Relies on snow's `Builder` (`new` on the parsed `name`,
/// `local_private_key`, `prologue`, `build_responder`), which succeeds as
/// for the initiator.
#[verifier::external_body]
pub(crate) fn build_responder(name: &str, local_private_key: &[u8], prologue: &[u8]) -> (r: Result<
    HandshakeState,
    snow::Error,
>)
    requires
        local_private_key@.len() == KEY_SIZE,
    ensures
        name@ == NOISE_PARAMS@ ==> r is Ok,
{
    Builder::new(name.parse()?).local_private_key(local_private_key)?.prologue(
        prologue,
    )?.build_responder()
}

/// Relies on snow's `HandshakeState::write_message`, which writes the next
/// handshake message, carrying `payload`, into a buffer of the largest
/// Noise message size and returns how many bytes it wrote.
#[verifier::external_body]
pub(crate) fn handshake_write(state: &mut HandshakeState, payload: &[u8]) -> (r: Result<
    Vec<u8>,
    snow::Error,
>)
    ensures
        r matches Ok(m) ==> m@.len() <= NOISE_MESSAGE_MAX_SIZE,
{
    let mut buf = vec![0u8; NOISE_MESSAGE_MAX_SIZE];
    let len = state.write_message(payload, &mut buf)?;
    buf.truncate(len);
    Ok(buf)
}

/// Relies on snow's `HandshakeState::read_message`, which reads a handshake
/// message and writes its payload into a buffer of `capacity` bytes; it
/// fails rather than write past the buffer.
#[verifier::external_body]
pub(crate) fn handshake_read(state: &mut HandshakeState, message: &[u8], capacity: usize) -> (r:
    Result<Vec<u8>, snow::Error>)
    ensures
        r matches Ok(p) ==> p@.len() <= capacity,
{
    let mut buf = vec![0u8; capacity];
    let len = state.read_message(message, &mut buf)?;
    buf.truncate(len);
    Ok(buf)
}

/// Relies on snow's `HandshakeState::get_remote_static`: the remote static
/// key once the handshake has learned it.
#[verifier::external_body]
pub(crate) fn handshake_remote_static(state: &HandshakeState) -> (r: Option<Vec<u8>>) {
    state.get_remote_static().map(|k| k.to_vec())
}

/// Relies on snow's `HandshakeState::into_transport_mode`.
#[verifier::external_body]
pub(crate) fn into_transport_mode(state: HandshakeState) -> (r: Result<
    TransportState,
    snow::Error,
>) {
    state.into_transport_mode()
}

/// Relies on snow's `TransportState::write_message`: it refuses a payload
/// that would not fit a Noise message with its tag, and otherwise writes the
/// ciphertext, tag included, as long as the payload and the tag.
#[verifier::external_body]
pub(crate) fn transport_write(state: &mut TransportState, payload: &[u8]) -> (r: Result<
    Vec<u8>,
    snow::Error,
>)
    ensures
        payload@.len() + MAC_SIZE > NOISE_MESSAGE_MAX_SIZE ==> r is Err,
        r matches Ok(c) ==> c@.len() == payload@.len() + MAC_SIZE,
{
    let mut buf = vec![0u8; NOISE_MESSAGE_MAX_SIZE];
    let len = state.write_message(payload, &mut buf)?;
    buf.truncate(len);
    Ok(buf)
}

/// Relies on snow's `TransportState::read_message`: it authenticates and
/// decrypts one ciphertext, and the plaintext is the ciphertext without its tag.
#[verifier::external_body]
pub(crate) fn transport_read(state: &mut TransportState, message: &[u8]) -> (r: Result<
    Vec<u8>,
    snow::Error,
>)
    ensures
        r matches Ok(p) ==> p@.len() + MAC_SIZE == message@.len(),
{
    let mut buf = vec![0u8; NOISE_MESSAGE_MAX_SIZE];
    let len = state.read_message(message, &mut buf)?;
    buf.truncate(len);
    Ok(buf)
}

/// Relies on subtle's `ConstantTimeEq` for byte slices: equal lengths and
/// equal bytes, compared without branching on the contents.
#[verifier::external_body]
pub(crate) fn ct_eq_bytes(a: &[u8], b: &[u8]) -> (r: bool)
    ensures
        r == (a@ == b@),
{
    bool::from(a.ct_eq(b))
}

/// Relies on std's `SystemTime::elapsed` on the unix epoch: the whole
/// seconds since then, or nothing when the clock is set before it.
#[verifier::external_body]
pub(crate) fn seconds_since_unix_epoch() -> (r: Option<u64>) {
    std::time::UNIX_EPOCH.elapsed().ok().map(|d| d.as_secs())
}

} // verus!
