//! The session: an explicit phase machine around the Noise XX handshake,
//! the peer authentication step, and the framed record encryption that
//! follows it.

use ecdh_wrapper::{PrivateKey, PublicKey};
use snow::{HandshakeState, TransportState};
use vstd::prelude::*;
use vstd::slice::slice_subrange;
use crate::auth::{
    authenticate_message_from_bytes, parsed_additional_data, serialize, AuthenticateMessage,
};
use crate::errors::{HandshakeError, ReceiveMessageError, SendMessageError};
use crate::keys::{private_key_bytes, public_key_bytes, public_key_from_bytes};
use crate::noise::{
    build_initiator, build_responder, ct_eq_bytes, handshake_read, handshake_remote_static,
    handshake_write, into_transport_mode, parse_noise_params, seconds_since_unix_epoch,
    transport_read, transport_write,
};
use crate::wire::{
    be32_bytes, be32_value, lemma_be32_round_trip, read_u32_be, write_u32_be, AUTH_MESSAGE_SIZE,
    KEY_SIZE, MAC_SIZE, MAX_ADDITIONAL_DATA_SIZE, NOISE_HANDSHAKE_MESSAGE1_SIZE,
    NOISE_HANDSHAKE_MESSAGE2_SIZE, NOISE_HANDSHAKE_MESSAGE3_SIZE, NOISE_MESSAGE_HEADER_SIZE,
    NOISE_MESSAGE_MAX_SIZE, NOISE_PARAMS, PROLOGUE_BYTE, PROLOGUE_SIZE,
};

verus! {

/// What the authenticator is shown of a peer: the additional data of its
/// authentication payload and its static public key.
pub struct PeerCredentials {
    pub additional_data: Vec<u8>,
    pub public_key: PublicKey,
}

/// The caller's peer policy, asked once per session by the side that has
/// just learned the remote static key. An implementation states its policy
/// in `accepts`, and `is_peer_valid` answers by it.
pub trait PeerAuthenticator {
    /// Whether the policy accepts a peer with these credentials.
    spec fn accepts(&self, peer_credentials: PeerCredentials) -> bool;

    fn is_peer_valid(&self, peer_credentials: &PeerCredentials) -> (r: bool)
        ensures
            r == self.accepts(*peer_credentials),
    ;
}

/// What a session is built from.
pub struct SessionConfig<A> {
    pub authenticator: A,
    pub authentication_key: PrivateKey,
    pub peer_public_key: Option<PublicKey>,
    pub additional_data: Vec<u8>,
}

/// Where a session stands in its handshake.
#[derive(Debug, Clone, Copy, PartialEq, Eq, Structural)]
pub enum Phase {
    Init,
    Hs1Sent,
    Hs1Received,
    Hs2Sent,
    Hs2Received,
    Transport,
    Invalid,
}

/// The operations of a session, one per entry point; `Record` stands for
/// each of the record operations.
#[derive(Debug, Clone, Copy, PartialEq, Eq, Structural)]
pub enum Step {
    ClientHandshake1,
    ClientReadHandshake1,
    ClientHandshake2,
    ServerReadHandshake1,
    ServerHandshake1,
    ServerReadHandshake2,
    DataTransfer,
    Record,
}

/// Whether `step` may be taken by a session of this role in this phase.
pub open spec fn step_allowed(initiator: bool, phase: Phase, step: Step) -> bool {
    match step {
        Step::ClientHandshake1 => initiator && phase == Phase::Init,
        Step::ClientReadHandshake1 => initiator && phase == Phase::Hs1Sent,
        Step::ClientHandshake2 => initiator && phase == Phase::Hs2Received,
        Step::ServerReadHandshake1 => !initiator && phase == Phase::Init,
        Step::ServerHandshake1 => !initiator && phase == Phase::Hs1Received,
        Step::ServerReadHandshake2 => !initiator && phase == Phase::Hs1Sent,
        Step::DataTransfer => (initiator && phase == Phase::Hs2Sent) || (!initiator && phase
            == Phase::Hs2Received),
        Step::Record => phase == Phase::Transport,
    }
}

/// The phase that a successful `step` leads to.
pub open spec fn phase_after(step: Step) -> Phase {
    match step {
        Step::ClientHandshake1 => Phase::Hs1Sent,
        Step::ClientReadHandshake1 => Phase::Hs2Received,
        Step::ClientHandshake2 => Phase::Hs2Sent,
        Step::ServerReadHandshake1 => Phase::Hs1Received,
        Step::ServerHandshake1 => Phase::Hs1Sent,
        Step::ServerReadHandshake2 => Phase::Hs2Received,
        Step::DataTransfer => Phase::Transport,
        Step::Record => Phase::Transport,
    }
}

/// How a call of `step` moves the phase: a success only where the step is
/// allowed, to the phase after it; any failure to `Invalid`.
pub open spec fn transition(
    initiator: bool,
    before: Phase,
    step: Step,
    succeeded: bool,
    after: Phase,
) -> bool {
    if succeeded {
        step_allowed(initiator, before, step) && after == phase_after(step)
    } else {
        after == Phase::Invalid
    }
}

/// Decides whether `step` may be taken by a session of this role in this phase.
pub fn check_step(initiator: bool, phase: Phase, step: Step) -> (r: bool)
    ensures
        r == step_allowed(initiator, phase, step),
{
    match step {
        Step::ClientHandshake1 => initiator && phase == Phase::Init,
        Step::ClientReadHandshake1 => initiator && phase == Phase::Hs1Sent,
        Step::ClientHandshake2 => initiator && phase == Phase::Hs2Received,
        Step::ServerReadHandshake1 => !initiator && phase == Phase::Init,
        Step::ServerHandshake1 => !initiator && phase == Phase::Hs1Received,
        Step::ServerReadHandshake2 => !initiator && phase == Phase::Hs1Sent,
        Step::DataTransfer => (initiator && phase == Phase::Hs2Sent) || (!initiator && phase
            == Phase::Hs2Received),
        Step::Record => phase == Phase::Transport,
    }
}

/// After any failed call, every further call is refused: the phase a
/// failure leaves allows no step.
pub proof fn lemma_failure_is_terminal(
    initiator: bool,
    before: Phase,
    step: Step,
    after: Phase,
    next_step: Step,
)
    requires
        transition(initiator, before, step, false, after),
    ensures
        !step_allowed(initiator, after, next_step),
{
}

/// The two legal traces: the initiator writes, reads, writes and switches to
/// transport; the responder reads, writes, reads and switches to transport.
pub proof fn lemma_handshake_traces()
    ensures
        step_allowed(true, Phase::Init, Step::ClientHandshake1),
        step_allowed(true, phase_after(Step::ClientHandshake1), Step::ClientReadHandshake1),
        step_allowed(true, phase_after(Step::ClientReadHandshake1), Step::ClientHandshake2),
        step_allowed(true, phase_after(Step::ClientHandshake2), Step::DataTransfer),
        step_allowed(false, Phase::Init, Step::ServerReadHandshake1),
        step_allowed(false, phase_after(Step::ServerReadHandshake1), Step::ServerHandshake1),
        step_allowed(false, phase_after(Step::ServerHandshake1), Step::ServerReadHandshake2),
        step_allowed(false, phase_after(Step::ServerReadHandshake2), Step::DataTransfer),
        phase_after(Step::DataTransfer) == Phase::Transport,
{
}

/// Record operations are allowed only in transport mode, which only a
/// successful `data_transfer` enters.
pub proof fn lemma_records_need_transport(initiator: bool, phase: Phase, step: Step)
    requires
        phase != Phase::Transport,
    ensures
        !step_allowed(initiator, phase, Step::Record),
        step_allowed(initiator, phase, step) && phase_after(step) == Phase::Transport ==> step
            == Step::DataTransfer,
{
}

/// The Noise engine in the mode that the session is in.
enum NoiseState {
    Handshake(HandshakeState),
    Transport(TransportState),
}

/// One end of a Noise XX session.
pub struct Session<A> {
    initiator: bool,
    phase: Phase,
    noise: NoiseState,
    additional_data: Vec<u8>,
    authenticator: A,
    authentication_key: PrivateKey,
    /// The credentials last shown to the authenticator, if any.
    shown: Ghost<Option<PeerCredentials>>,
    /// The plaintexts handed to the Noise engine to be written, in order.
    sent: Ghost<Seq<Seq<u8>>>,
    /// The messages the Noise engine wrote for them, in order.
    written: Ghost<Seq<Seq<u8>>>,
    /// The plaintexts the Noise engine opened from records, in order.
    opened: Ghost<Seq<Seq<u8>>>,
}

/// A decrypted authentication payload, padded with zeros to the full
/// payload size (the third handshake message carries an empty one).
pub open spec fn padded_payload(p: Seq<u8>) -> Seq<u8> {
    p + Seq::new((AUTH_MESSAGE_SIZE - p.len()) as nat, |i: int| 0u8)
}

/// Builds the credentials of the peer from the authentication payload it
/// sent and its static key.
pub fn peer_credentials(payload: &Vec<u8>, remote_static: &Vec<u8>) -> (r: PeerCredentials)
    requires
        payload@.len() <= AUTH_MESSAGE_SIZE,
        remote_static@.len() == KEY_SIZE,
    ensures
        r.additional_data@ == parsed_additional_data(padded_payload(payload@)),
{
    let mut buf: Vec<u8> = Vec::with_capacity(AUTH_MESSAGE_SIZE);
    let mut i: usize = 0;
    while i < payload.len()
        invariant
            payload@.len() <= AUTH_MESSAGE_SIZE,
            i <= payload@.len(),
            buf@ == payload@.subrange(0, i as int),
        decreases payload@.len() - i,
    {
        buf.push(payload[i]);
        i = i + 1;
        assert(payload@.subrange(0, i as int) == payload@.subrange(0, i - 1).push(payload@[i - 1]));
    }
    assert(payload@.subrange(0, payload@.len() as int) == payload@);
    while i < AUTH_MESSAGE_SIZE
        invariant
            payload@.len() <= i <= AUTH_MESSAGE_SIZE,
            buf@ == payload@ + Seq::new((i - payload@.len()) as nat, |j: int| 0u8),
        decreases AUTH_MESSAGE_SIZE - i,
    {
        buf.push(0u8);
        i = i + 1;
        assert(Seq::new((i - payload@.len()) as nat, |j: int| 0u8) == Seq::new(
            (i - 1 - payload@.len()) as nat,
            |j: int| 0u8,
        ).push(0u8));
    }
    assert(buf@ == padded_payload(payload@));
    let public_key = public_key_from_bytes(remote_static.as_slice());
    match authenticate_message_from_bytes(buf.as_slice()) {
        Ok(m) => PeerCredentials { additional_data: m.additional_data, public_key },
        Err(_) => PeerCredentials { additional_data: Vec::new(), public_key },
    }
}

/// The outcome of the authentication step, given the authenticator's answer.
pub fn authentication_result(accepted: bool, initiator: bool) -> (r: Result<(), HandshakeError>)
    ensures
        r is Ok <==> accepted,
        r is Err ==> r->Err_0 == (if initiator {
            HandshakeError::ClientAuthenticationError
        } else {
            HandshakeError::ServerAuthenticationError
        }),
{
    if accepted {
        Ok(())
    } else if initiator {
        Err(HandshakeError::ClientAuthenticationError)
    } else {
        Err(HandshakeError::ServerAuthenticationError)
    }
}

/// The plaintext of a record's length header: the payload length plus the
/// tag, big-endian.
pub fn record_header(payload_len: usize) -> (r: [u8; 4])
    requires
        MAC_SIZE + payload_len <= NOISE_MESSAGE_MAX_SIZE,
    ensures
        r@ == be32_bytes((MAC_SIZE + payload_len) as u32),
{
    write_u32_be((MAC_SIZE + payload_len) as u32)
}

/// The length that a decrypted record header announces.
pub fn record_length(header: &[u8]) -> (r: u32)
    requires
        header@.len() == 4,
    ensures
        r == be32_value(header@),
{
    read_u32_be(header)
}

/// The length header of a record gives back the length it was made for:
/// the payload length plus the tag.
pub proof fn lemma_record_length_round_trip(payload_len: nat)
    requires
        MAC_SIZE + payload_len <= NOISE_MESSAGE_MAX_SIZE,
    ensures
        be32_value(be32_bytes((MAC_SIZE + payload_len) as u32)) == MAC_SIZE + payload_len,
{
    lemma_be32_round_trip((MAC_SIZE + payload_len) as u32);
}

/// The outcome of writing a handshake message of `N` bytes, given what the
/// Noise engine wrote: the message when it has that size, `err` otherwise.
pub fn handshake_message<const N: usize>(
    written: Result<Vec<u8>, snow::Error>,
    err: HandshakeError,
) -> (r: Result<[u8; N], HandshakeError>)
    ensures
        r is Ok <==> (written is Ok && written->Ok_0@.len() == N),
        r matches Ok(a) ==> a@ == written->Ok_0@,
        r is Err ==> r->Err_0 == err,
{
    match written {
        Ok(m) => {
            if m.len() == N {
                Ok(to_array(&m))
            } else {
                Err(err)
            }
        },
        Err(_) => Err(err),
    }
}

/// A record on the wire: the header ciphertext followed by the payload
/// ciphertext.
pub fn record_frame(header_ct: Vec<u8>, payload_ct: &[u8]) -> (r: Vec<u8>)
    ensures
        r@ == header_ct@ + payload_ct@,
{
    let mut out = header_ct;
    out.extend_from_slice(payload_ct);
    assert(out@ =~= header_ct@ + payload_ct@);
    out
}

/// Copies a message of exactly `N` bytes into an array.
fn to_array<const N: usize>(v: &Vec<u8>) -> (r: [u8; N])
    requires
        v@.len() == N,
    ensures
        r@ == v@,
{
    let mut a = [0u8; N];
    let mut i: usize = 0;
    while i < N
        invariant
            v@.len() == N,
            a@.len() == N,
            i <= N,
            forall|j: int| 0 <= j < i ==> a@[j] == v@[j],
        decreases N - i,
    {
        a.set(i, v[i]);
        i = i + 1;
    }
    assert(a@ =~= v@);
    a
}

/// The timestamp of an authentication payload: the seconds since the unix
/// epoch modulo 2^32, or zero when the clock is set before the epoch.
pub open spec fn unix_time_from(secs: Option<u64>) -> u32 {
    match secs {
        Some(s) => (s % 0x1_0000_0000u64) as u32,
        None => 0u32,
    }
}

/// Computes the timestamp of an authentication payload from a clock reading.
pub fn unix_time_of(secs: Option<u64>) -> (r: u32)
    ensures
        r == unix_time_from(secs),
{
    match secs {
        Some(s) => (s % 0x1_0000_0000u64) as u32,
        None => 0,
    }
}

impl<A> Session<A> {
    /// The phase the session is in.
    pub closed spec fn spec_phase(&self) -> Phase {
        self.phase
    }

    /// Whether the session is the initiator of the handshake.
    pub closed spec fn spec_initiator(&self) -> bool {
        self.initiator
    }

    /// The local additional data sent in the authentication payload.
    pub closed spec fn spec_additional_data(&self) -> Seq<u8> {
        self.additional_data@
    }

    /// The peer policy of the session.
    pub closed spec fn spec_authenticator(&self) -> A {
        self.authenticator
    }

    /// The peer credentials that the session has shown to its
    /// authenticator, once it has learned them.
    pub closed spec fn spec_shown(&self) -> Option<PeerCredentials> {
        self.shown@
    }

    /// The plaintexts the session has handed to the Noise engine to be
    /// written, in order.
    pub closed spec fn spec_sent(&self) -> Seq<Seq<u8>> {
        self.sent@
    }

    /// The messages the Noise engine has written for the session, in order.
    pub closed spec fn spec_written(&self) -> Seq<Seq<u8>> {
        self.written@
    }

    /// The plaintexts the Noise engine has opened from records, in order.
    pub closed spec fn spec_opened(&self) -> Seq<Seq<u8>> {
        self.opened@
    }

    /// The Noise engine is in handshake mode during the handshake and in
    /// transport mode exactly in the transport phase; the local additional
    /// data fits the authentication payload.
    pub closed spec fn wf(&self) -> bool {
        &&& self.additional_data@.len() <= MAX_ADDITIONAL_DATA_SIZE
        &&& (self.phase == Phase::Transport ==> self.noise is Transport)
        &&& (self.phase != Phase::Transport && self.phase != Phase::Invalid ==> self.noise is Handshake)
    }

    /// `next` is the same session as `self`, possibly in another phase.
    pub open spec fn same_session(&self, next: &Self) -> bool {
        &&& next.wf()
        &&& next.spec_initiator() == self.spec_initiator()
        &&& next.spec_additional_data() == self.spec_additional_data()
        &&& next.spec_authenticator() == self.spec_authenticator()
    }

    /// The phase the session is in.
    pub fn phase(&self) -> (r: Phase)
        ensures
            r == self.spec_phase(),
    {
        self.phase
    }

    /// Whether the session is the initiator of the handshake.
    pub fn is_initiator(&self) -> (r: bool)
        ensures
            r == self.spec_initiator(),
    {
        self.initiator
    }
}

impl<A: PeerAuthenticator> Session<A> {
    /// Builds a session in the `Init` phase. An initiator needs the
    /// responder's public key.
    pub fn new(session_config: SessionConfig<A>, is_initiator: bool) -> (r: Result<
        Session<A>,
        HandshakeError,
    >)
        requires
            session_config.additional_data@.len() <= MAX_ADDITIONAL_DATA_SIZE,
        ensures
            is_initiator && session_config.peer_public_key is None <==> r is Err && r->Err_0
                == HandshakeError::NoPeerKeyError,
            !(is_initiator && session_config.peer_public_key is None) ==> r is Ok,
            r matches Ok(s) ==> s.wf() && s.spec_phase() == Phase::Init && s.spec_initiator()
                == is_initiator && s.spec_additional_data() == session_config.additional_data@
                && s.spec_authenticator() == session_config.authenticator && s.spec_shown() is None
                && s.spec_sent() == Seq::<Seq<u8>>::empty() && s.spec_written() == Seq::<
                Seq<u8>,
            >::empty() && s.spec_opened() == Seq::<Seq<u8>>::empty(),
    {
        let SessionConfig { authenticator, authentication_key, peer_public_key, additional_data } =
            session_config;
        if is_initiator && peer_public_key.is_none() {
            return Err(HandshakeError::NoPeerKeyError);
        }
        if parse_noise_params(NOISE_PARAMS).is_err() {
            return Err(HandshakeError::InvalidNoiseSpecError);
        }
        let local_key = private_key_bytes(&authentication_key);
        let prologue: Vec<u8> = vec![PROLOGUE_BYTE];
        let built = match &peer_public_key {
            Some(peer) if is_initiator => {
                let remote_key = public_key_bytes(peer);
                build_initiator(
                    NOISE_PARAMS,
                    local_key.as_slice(),
                    remote_key.as_slice(),
                    prologue.as_slice(),
                )
            },
            _ => build_responder(NOISE_PARAMS, local_key.as_slice(), prologue.as_slice()),
        };
        match built {
            Ok(hs) => Ok(
                Session {
                    initiator: is_initiator,
                    phase: Phase::Init,
                    noise: NoiseState::Handshake(hs),
                    additional_data,
                    authenticator,
                    authentication_key,
                    shown: Ghost(None),
                    sent: Ghost(Seq::empty()),
                    written: Ghost(Seq::empty()),
                    opened: Ghost(Seq::empty()),
                },
            ),
            Err(_) => Err(HandshakeError::SessionCreateError),
        }
    }

    /// Initiator: writes the first handshake message, the ephemeral key
    /// followed by the prologue byte.
    pub fn client_handshake1(&mut self) -> (r: Result<
        [u8; NOISE_HANDSHAKE_MESSAGE1_SIZE],
        HandshakeError,
    >)
        requires
            old(self).wf(),
        ensures
            old(self).same_session(final(self)),
            transition(
                old(self).spec_initiator(),
                old(self).spec_phase(),
                Step::ClientHandshake1,
                r is Ok,
                final(self).spec_phase(),
            ),
            !step_allowed(old(self).spec_initiator(), old(self).spec_phase(), Step::ClientHandshake1)
                ==> r is Err && r->Err_0 == HandshakeError::InvalidStateError,
            step_allowed(old(self).spec_initiator(), old(self).spec_phase(), Step::ClientHandshake1)
                && r is Err ==> r->Err_0 == HandshakeError::ClientHandshakeNoise1Error,
            step_allowed(old(self).spec_initiator(), old(self).spec_phase(), Step::ClientHandshake1)
                ==> final(self).spec_sent() == old(self).spec_sent().push(seq![PROLOGUE_BYTE]),
            r matches Ok(a) ==> final(self).spec_written() == old(self).spec_written().push(a@),
    {
        if !check_step(self.initiator, self.phase, Step::ClientHandshake1) {
            self.phase = Phase::Invalid;
            return Err(HandshakeError::InvalidStateError);
        }
        let prologue: Vec<u8> = vec![PROLOGUE_BYTE];
        assert(prologue@ =~= seq![PROLOGUE_BYTE]);
        let written = match &mut self.noise {
            NoiseState::Handshake(hs) => {
                self.sent = Ghost(self.sent@.push(prologue@));
                handshake_write(hs, prologue.as_slice())
            },
            NoiseState::Transport(_) => {
                self.phase = Phase::Invalid;
                return Err(HandshakeError::ClientHandshakeNoise1Error);
            },
        };
        self.written = Ghost(
            if written is Ok {
                self.written@.push(written->Ok_0@)
            } else {
                self.written@
            },
        );
        let r = handshake_message(written, HandshakeError::ClientHandshakeNoise1Error);
        match &r {
            Ok(_) => self.phase = Phase::Hs1Sent,
            Err(_) => self.phase = Phase::Invalid,
        }
        r
    }

    /// Reads a handshake message that carries the peer's authentication
    /// payload, learns the peer's static key, and asks the authenticator.
    fn read_and_authenticate(&mut self, message: &[u8], noise_error: HandshakeError) -> (r: Result<
        (),
        HandshakeError,
    >)
        requires
            old(self).wf(),
            old(self).noise is Handshake,
        ensures
            final(self).initiator == old(self).initiator,
            final(self).phase == old(self).phase,
            final(self).additional_data@ == old(self).additional_data@,
            final(self).authenticator == old(self).authenticator,
            final(self).noise is Handshake,
            final(self).shown@ is None ==> r is Err && r->Err_0 == noise_error,
            final(self).shown@ matches Some(c) ==> (r is Ok <==> old(self).authenticator.accepts(c))
                && (r is Err ==> r->Err_0 == (if old(self).initiator {
                HandshakeError::ClientAuthenticationError
            } else {
                HandshakeError::ServerAuthenticationError
            })),
    {
        self.shown = Ghost(None);
        let (payload, remote) = match &mut self.noise {
            NoiseState::Handshake(hs) => {
                let payload = match handshake_read(hs, message, AUTH_MESSAGE_SIZE) {
                    Ok(p) => p,
                    Err(_) => return Err(noise_error),
                };
                match handshake_remote_static(hs) {
                    Some(k) => {
                        if k.len() != KEY_SIZE {
                            return Err(noise_error);
                        }
                        (payload, k)
                    },
                    None => return Err(noise_error),
                }
            },
            NoiseState::Transport(_) => return Err(noise_error),
        };
        let credentials = peer_credentials(&payload, &remote);
        let ghost shown_credentials = credentials;
        self.shown = Ghost(Some(shown_credentials));
        let accepted = self.authenticator.is_peer_valid(&credentials);
        authentication_result(accepted, self.initiator)
    }

    /// Initiator: reads the responder's handshake message, which carries its
    /// static key and authentication payload, and authenticates the responder.
    pub fn client_read_handshake1(&mut self, message: &[u8]) -> (r: Result<(), HandshakeError>)
        requires
            old(self).wf(),
        ensures
            old(self).same_session(final(self)),
            transition(
                old(self).spec_initiator(),
                old(self).spec_phase(),
                Step::ClientReadHandshake1,
                r is Ok,
                final(self).spec_phase(),
            ),
            !step_allowed(
                old(self).spec_initiator(),
                old(self).spec_phase(),
                Step::ClientReadHandshake1,
            ) ==> r is Err && r->Err_0 == HandshakeError::InvalidStateError,
            step_allowed(old(self).spec_initiator(), old(self).spec_phase(), Step::ClientReadHandshake1)
                && message@.len() != NOISE_HANDSHAKE_MESSAGE2_SIZE ==> r is Err && r->Err_0
                == HandshakeError::ClientHandshakeNoise2Error,
            step_allowed(old(self).spec_initiator(), old(self).spec_phase(), Step::ClientReadHandshake1)
                && r is Err ==> r->Err_0 == HandshakeError::ClientHandshakeNoise2Error || r->Err_0
                == HandshakeError::ClientAuthenticationError,
            step_allowed(old(self).spec_initiator(), old(self).spec_phase(), Step::ClientReadHandshake1)
                && message@.len() == NOISE_HANDSHAKE_MESSAGE2_SIZE && final(self).spec_shown() is None ==> r is Err
                && r->Err_0 == HandshakeError::ClientHandshakeNoise2Error,
            step_allowed(old(self).spec_initiator(), old(self).spec_phase(), Step::ClientReadHandshake1)
                && message@.len() == NOISE_HANDSHAKE_MESSAGE2_SIZE && final(self).spec_shown() is Some ==> (r is Ok
                <==> old(self).spec_authenticator().accepts(final(self).spec_shown()->Some_0)) && (r is Err ==> r->Err_0
                == HandshakeError::ClientAuthenticationError),
            r is Ok ==> final(self).spec_shown() is Some && old(self).spec_authenticator().accepts(
                final(self).spec_shown()->Some_0,
            ),
            !(step_allowed(old(self).spec_initiator(), old(self).spec_phase(), Step::ClientReadHandshake1)
                && message@.len() == NOISE_HANDSHAKE_MESSAGE2_SIZE) ==> final(self).spec_shown() == old(
                self,
            ).spec_shown(),
    {
        if !check_step(self.initiator, self.phase, Step::ClientReadHandshake1) {
            self.phase = Phase::Invalid;
            return Err(HandshakeError::InvalidStateError);
        }
        if message.len() != NOISE_HANDSHAKE_MESSAGE2_SIZE {
            self.phase = Phase::Invalid;
            return Err(HandshakeError::ClientHandshakeNoise2Error);
        }
        match self.read_and_authenticate(message, HandshakeError::ClientHandshakeNoise2Error) {
            Ok(()) => {
                self.phase = Phase::Hs2Received;
                Ok(())
            },
            Err(e) => {
                self.phase = Phase::Invalid;
                Err(e)
            },
        }
    }

    /// Initiator: writes the third handshake message, with an empty payload.
    pub fn client_handshake2(&mut self) -> (r: Result<
        [u8; NOISE_HANDSHAKE_MESSAGE3_SIZE],
        HandshakeError,
    >)
        requires
            old(self).wf(),
        ensures
            old(self).same_session(final(self)),
            transition(
                old(self).spec_initiator(),
                old(self).spec_phase(),
                Step::ClientHandshake2,
                r is Ok,
                final(self).spec_phase(),
            ),
            !step_allowed(old(self).spec_initiator(), old(self).spec_phase(), Step::ClientHandshake2)
                ==> r is Err && r->Err_0 == HandshakeError::InvalidStateError,
            step_allowed(old(self).spec_initiator(), old(self).spec_phase(), Step::ClientHandshake2)
                && r is Err ==> r->Err_0 == HandshakeError::ClientHandshakeNoise3Error,
            step_allowed(old(self).spec_initiator(), old(self).spec_phase(), Step::ClientHandshake2)
                ==> final(self).spec_sent() == old(self).spec_sent().push(Seq::<u8>::empty()),
            r matches Ok(a) ==> final(self).spec_written() == old(self).spec_written().push(a@),
    {
        if !check_step(self.initiator, self.phase, Step::ClientHandshake2) {
            self.phase = Phase::Invalid;
            return Err(HandshakeError::InvalidStateError);
        }
        let empty: Vec<u8> = Vec::new();
        let written = match &mut self.noise {
            NoiseState::Handshake(hs) => {
                self.sent = Ghost(self.sent@.push(empty@));
                handshake_write(hs, empty.as_slice())
            },
            NoiseState::Transport(_) => {
                self.phase = Phase::Invalid;
                return Err(HandshakeError::ClientHandshakeNoise3Error);
            },
        };
        self.written = Ghost(
            if written is Ok {
                self.written@.push(written->Ok_0@)
            } else {
                self.written@
            },
        );
        let r = handshake_message(written, HandshakeError::ClientHandshakeNoise3Error);
        match &r {
            Ok(_) => self.phase = Phase::Hs2Sent,
            Err(_) => self.phase = Phase::Invalid,
        }
        r
    }

    /// Responder: checks the prologue byte of the first handshake message in
    /// constant time, then reads the message.
    pub fn server_read_handshake1(&mut self, message: &[u8]) -> (r: Result<(), HandshakeError>)
        requires
            old(self).wf(),
        ensures
            old(self).same_session(final(self)),
            transition(
                old(self).spec_initiator(),
                old(self).spec_phase(),
                Step::ServerReadHandshake1,
                r is Ok,
                final(self).spec_phase(),
            ),
            !step_allowed(
                old(self).spec_initiator(),
                old(self).spec_phase(),
                Step::ServerReadHandshake1,
            ) ==> r is Err && r->Err_0 == HandshakeError::InvalidStateError,
            step_allowed(old(self).spec_initiator(), old(self).spec_phase(), Step::ServerReadHandshake1)
                && message@.len() != NOISE_HANDSHAKE_MESSAGE1_SIZE ==> r is Err && r->Err_0
                == HandshakeError::ServerHandshakeNoise1Error,
            step_allowed(old(self).spec_initiator(), old(self).spec_phase(), Step::ServerReadHandshake1)
                && message@.len() == NOISE_HANDSHAKE_MESSAGE1_SIZE && message@.last() != PROLOGUE_BYTE
                ==> r is Err && r->Err_0 == HandshakeError::ServerPrologueMismatchError,
            step_allowed(old(self).spec_initiator(), old(self).spec_phase(), Step::ServerReadHandshake1)
                && r is Err ==> r->Err_0 == HandshakeError::ServerHandshakeNoise1Error || r->Err_0
                == HandshakeError::ServerPrologueMismatchError,
            r is Err && r->Err_0 == HandshakeError::ServerPrologueMismatchError ==> step_allowed(
                old(self).spec_initiator(),
                old(self).spec_phase(),
                Step::ServerReadHandshake1,
            ) && message@.len() == NOISE_HANDSHAKE_MESSAGE1_SIZE && message@.last() != PROLOGUE_BYTE,
    {
        if !check_step(self.initiator, self.phase, Step::ServerReadHandshake1) {
            self.phase = Phase::Invalid;
            return Err(HandshakeError::InvalidStateError);
        }
        if message.len() != NOISE_HANDSHAKE_MESSAGE1_SIZE {
            self.phase = Phase::Invalid;
            return Err(HandshakeError::ServerHandshakeNoise1Error);
        }
        let prologue: Vec<u8> = vec![PROLOGUE_BYTE];
        let last = slice_subrange(
            message,
            NOISE_HANDSHAKE_MESSAGE1_SIZE - PROLOGUE_SIZE,
            NOISE_HANDSHAKE_MESSAGE1_SIZE,
        );
        assert(last@ =~= seq![message@.last()]);
        assert(prologue@ =~= seq![PROLOGUE_BYTE]);
        if !ct_eq_bytes(last, prologue.as_slice()) {
            self.phase = Phase::Invalid;
            return Err(HandshakeError::ServerPrologueMismatchError);
        }
        let read = match &mut self.noise {
            NoiseState::Handshake(hs) => handshake_read(hs, message, NOISE_HANDSHAKE_MESSAGE1_SIZE),
            NoiseState::Transport(_) => {
                self.phase = Phase::Invalid;
                return Err(HandshakeError::ServerHandshakeNoise1Error);
            },
        };
        match read {
            Ok(p) => {
                if p.len() == PROLOGUE_SIZE {
                    self.phase = Phase::Hs1Received;
                    Ok(())
                } else {
                    self.phase = Phase::Invalid;
                    Err(HandshakeError::ServerHandshakeNoise1Error)
                }
            },
            Err(_) => {
                self.phase = Phase::Invalid;
                Err(HandshakeError::ServerHandshakeNoise1Error)
            },
        }
    }

    /// Responder: writes the second handshake message, carrying the
    /// authentication payload with the local additional data and the
    /// current unix time.
    pub fn server_handshake1(&mut self) -> (r: Result<
        [u8; NOISE_HANDSHAKE_MESSAGE2_SIZE],
        HandshakeError,
    >)
        requires
            old(self).wf(),
        ensures
            old(self).same_session(final(self)),
            transition(
                old(self).spec_initiator(),
                old(self).spec_phase(),
                Step::ServerHandshake1,
                r is Ok,
                final(self).spec_phase(),
            ),
            !step_allowed(old(self).spec_initiator(), old(self).spec_phase(), Step::ServerHandshake1)
                ==> r is Err && r->Err_0 == HandshakeError::InvalidStateError,
            step_allowed(old(self).spec_initiator(), old(self).spec_phase(), Step::ServerHandshake1)
                && r is Err ==> r->Err_0 == HandshakeError::ServerHandshakeNoise2Error,
            step_allowed(old(self).spec_initiator(), old(self).spec_phase(), Step::ServerHandshake1)
                ==> exists|secs: Option<u64>|
                final(self).spec_sent() == old(self).spec_sent().push(
                    serialize(old(self).spec_additional_data(), #[trigger] unix_time_from(secs)),
                ),
            r matches Ok(a) ==> final(self).spec_written() == old(self).spec_written().push(a@),
    {
        let secs = seconds_since_unix_epoch();
        let unix_time = unix_time_of(secs);
        let r = self.server_handshake1_at(unix_time);
        assert(unix_time == unix_time_from(secs));
        r
    }

    /// Responder: writes the second handshake message, carrying the
    /// authentication payload with the local additional data and `unix_time`.
    pub fn server_handshake1_at(&mut self, unix_time: u32) -> (r: Result<
        [u8; NOISE_HANDSHAKE_MESSAGE2_SIZE],
        HandshakeError,
    >)
        requires
            old(self).wf(),
        ensures
            old(self).same_session(final(self)),
            transition(
                old(self).spec_initiator(),
                old(self).spec_phase(),
                Step::ServerHandshake1,
                r is Ok,
                final(self).spec_phase(),
            ),
            !step_allowed(old(self).spec_initiator(), old(self).spec_phase(), Step::ServerHandshake1)
                ==> r is Err && r->Err_0 == HandshakeError::InvalidStateError,
            step_allowed(old(self).spec_initiator(), old(self).spec_phase(), Step::ServerHandshake1)
                && r is Err ==> r->Err_0 == HandshakeError::ServerHandshakeNoise2Error,
            step_allowed(old(self).spec_initiator(), old(self).spec_phase(), Step::ServerHandshake1)
                ==> final(self).spec_sent() == old(self).spec_sent().push(serialize(old(self).spec_additional_data(), unix_time)),
            r matches Ok(a) ==> final(self).spec_written() == old(self).spec_written().push(a@),
    {
        if !check_step(self.initiator, self.phase, Step::ServerHandshake1) {
            self.phase = Phase::Invalid;
            return Err(HandshakeError::InvalidStateError);
        }
        let our_auth = AuthenticateMessage {
            additional_data: self.additional_data.clone(),
            unix_time,
        };
        assert(our_auth.additional_data@ =~= self.additional_data@);
        let raw_auth = match our_auth.to_vec() {
            Ok(v) => v,
            Err(_) => {
                self.phase = Phase::Invalid;
                return Err(HandshakeError::ServerHandshakeNoise2Error);
            },
        };
        let written = match &mut self.noise {
            NoiseState::Handshake(hs) => {
                self.sent = Ghost(self.sent@.push(raw_auth@));
                handshake_write(hs, raw_auth.as_slice())
            },
            NoiseState::Transport(_) => {
                self.phase = Phase::Invalid;
                return Err(HandshakeError::ServerHandshakeNoise2Error);
            },
        };
        self.written = Ghost(
            if written is Ok {
                self.written@.push(written->Ok_0@)
            } else {
                self.written@
            },
        );
        let r = handshake_message(written, HandshakeError::ServerHandshakeNoise2Error);
        match &r {
            Ok(_) => self.phase = Phase::Hs1Sent,
            Err(_) => self.phase = Phase::Invalid,
        }
        r
    }

    /// Responder: reads the initiator's third handshake message, which
    /// carries its static key, and authenticates the initiator.
    pub fn server_read_handshake2(&mut self, message: &[u8]) -> (r: Result<(), HandshakeError>)
        requires
            old(self).wf(),
        ensures
            old(self).same_session(final(self)),
            transition(
                old(self).spec_initiator(),
                old(self).spec_phase(),
                Step::ServerReadHandshake2,
                r is Ok,
                final(self).spec_phase(),
            ),
            !step_allowed(
                old(self).spec_initiator(),
                old(self).spec_phase(),
                Step::ServerReadHandshake2,
            ) ==> r is Err && r->Err_0 == HandshakeError::InvalidStateError,
            step_allowed(old(self).spec_initiator(), old(self).spec_phase(), Step::ServerReadHandshake2)
                && message@.len() != NOISE_HANDSHAKE_MESSAGE3_SIZE ==> r is Err && r->Err_0
                == HandshakeError::ServerHandshakeNoise3Error,
            step_allowed(old(self).spec_initiator(), old(self).spec_phase(), Step::ServerReadHandshake2)
                && r is Err ==> r->Err_0 == HandshakeError::ServerHandshakeNoise3Error || r->Err_0
                == HandshakeError::ServerAuthenticationError,
            step_allowed(old(self).spec_initiator(), old(self).spec_phase(), Step::ServerReadHandshake2)
                && message@.len() == NOISE_HANDSHAKE_MESSAGE3_SIZE && final(self).spec_shown() is None ==> r is Err
                && r->Err_0 == HandshakeError::ServerHandshakeNoise3Error,
            step_allowed(old(self).spec_initiator(), old(self).spec_phase(), Step::ServerReadHandshake2)
                && message@.len() == NOISE_HANDSHAKE_MESSAGE3_SIZE && final(self).spec_shown() is Some ==> (r is Ok
                <==> old(self).spec_authenticator().accepts(final(self).spec_shown()->Some_0)) && (r is Err ==> r->Err_0
                == HandshakeError::ServerAuthenticationError),
            r is Ok ==> final(self).spec_shown() is Some && old(self).spec_authenticator().accepts(
                final(self).spec_shown()->Some_0,
            ),
            !(step_allowed(old(self).spec_initiator(), old(self).spec_phase(), Step::ServerReadHandshake2)
                && message@.len() == NOISE_HANDSHAKE_MESSAGE3_SIZE) ==> final(self).spec_shown() == old(
                self,
            ).spec_shown(),
    {
        if !check_step(self.initiator, self.phase, Step::ServerReadHandshake2) {
            self.phase = Phase::Invalid;
            return Err(HandshakeError::InvalidStateError);
        }
        if message.len() != NOISE_HANDSHAKE_MESSAGE3_SIZE {
            self.phase = Phase::Invalid;
            return Err(HandshakeError::ServerHandshakeNoise3Error);
        }
        match self.read_and_authenticate(message, HandshakeError::ServerHandshakeNoise3Error) {
            Ok(()) => {
                self.phase = Phase::Hs2Received;
                Ok(())
            },
            Err(e) => {
                self.phase = Phase::Invalid;
                Err(e)
            },
        }
    }

    /// Moves a session whose handshake is complete into transport mode.
    pub fn data_transfer(self) -> (r: Result<Self, HandshakeError>)
        requires
            self.wf(),
        ensures
            !step_allowed(self.spec_initiator(), self.spec_phase(), Step::DataTransfer) ==> r is Err
                && r->Err_0 == HandshakeError::InvalidStateError,
            step_allowed(self.spec_initiator(), self.spec_phase(), Step::DataTransfer) && r is Err
                ==> r->Err_0 == HandshakeError::DataTransferFail,
            r matches Ok(s) ==> step_allowed(self.spec_initiator(), self.spec_phase(), Step::DataTransfer)
                && self.same_session(&s) && s.spec_phase() == Phase::Transport,
    {
        if !check_step(self.initiator, self.phase, Step::DataTransfer) {
            return Err(HandshakeError::InvalidStateError);
        }
        let Session {
            initiator,
            phase,
            noise,
            additional_data,
            authenticator,
            authentication_key,
            shown,
            sent,
            written,
            opened,
        } = self;
        let hs = match noise {
            NoiseState::Handshake(hs) => hs,
            NoiseState::Transport(_) => return Err(HandshakeError::DataTransferFail),
        };
        match into_transport_mode(hs) {
            Ok(ts) => Ok(
                Session {
                    initiator,
                    phase: Phase::Transport,
                    noise: NoiseState::Transport(ts),
                    additional_data,
                    authenticator,
                    authentication_key,
                    shown,
                    sent,
                    written,
                    opened,
                },
            ),
            Err(_) => Err(HandshakeError::DataTransferFail),
        }
    }

    /// Encrypts one record: the encrypted length header (the payload length
    /// plus the tag, big-endian) followed by the encrypted payload.
    pub fn encrypt_message(&mut self, message: Vec<u8>) -> (r: Result<Vec<u8>, SendMessageError>)
        requires
            old(self).wf(),
        ensures
            old(self).same_session(final(self)),
            transition(
                old(self).spec_initiator(),
                old(self).spec_phase(),
                Step::Record,
                r is Ok,
                final(self).spec_phase(),
            ),
            old(self).spec_phase() != Phase::Transport ==> r is Err && r->Err_0
                == SendMessageError::InvalidStateError,
            old(self).spec_phase() == Phase::Transport && MAC_SIZE + message@.len()
                > NOISE_MESSAGE_MAX_SIZE ==> r is Err && r->Err_0
                == SendMessageError::InvalidMessageSize,
            old(self).spec_phase() == Phase::Transport && MAC_SIZE + message@.len()
                <= NOISE_MESSAGE_MAX_SIZE && r is Err ==> r->Err_0 == SendMessageError::EncryptFail,
            r matches Ok(c) ==> c@.len() == NOISE_MESSAGE_HEADER_SIZE + MAC_SIZE + message@.len(),
            old(self).spec_phase() == Phase::Transport && MAC_SIZE + message@.len()
                <= NOISE_MESSAGE_MAX_SIZE ==> final(self).spec_sent().len() > old(
                self,
            ).spec_sent().len() && final(self).spec_sent().subrange(
                0,
                old(self).spec_sent().len() as int + 1,
            ) == old(self).spec_sent().push(be32_bytes((MAC_SIZE + message@.len()) as u32)),
            r is Ok ==> final(self).spec_sent() == old(self).spec_sent().push(
                be32_bytes((MAC_SIZE + message@.len()) as u32),
            ).push(message@),
            r matches Ok(c) ==> final(self).spec_written() == old(self).spec_written().push(
                c@.subrange(0, NOISE_MESSAGE_HEADER_SIZE as int),
            ).push(c@.subrange(NOISE_MESSAGE_HEADER_SIZE as int, c@.len() as int)),
    {
        if !check_step(self.initiator, self.phase, Step::Record) {
            self.phase = Phase::Invalid;
            return Err(SendMessageError::InvalidStateError);
        }
        if message.len() > NOISE_MESSAGE_MAX_SIZE - MAC_SIZE {
            self.phase = Phase::Invalid;
            return Err(SendMessageError::InvalidMessageSize);
        }
        let header = record_header(message.len());
        let sealed = match &mut self.noise {
            NoiseState::Transport(ts) => {
                self.sent = Ghost(self.sent@.push(header@));
                match transport_write(ts, header.as_slice()) {
                    Ok(h) => {
                        self.sent = Ghost(self.sent@.push(message@));
                        match transport_write(ts, message.as_slice()) {
                            Ok(c) => Some((h, c)),
                            Err(_) => None,
                        }
                    },
                    Err(_) => None,
                }
            },
            NoiseState::Handshake(_) => None,
        };
        match sealed {
            Some((h, c)) => {
                self.written = Ghost(self.written@.push(h@).push(c@));
                let out = record_frame(h, c.as_slice());
                assert(out@.subrange(0, NOISE_MESSAGE_HEADER_SIZE as int) =~= h@);
                assert(out@.subrange(NOISE_MESSAGE_HEADER_SIZE as int, out@.len() as int) =~= c@);
                self.phase = Phase::Transport;
                Ok(out)
            },
            None => {
                self.phase = Phase::Invalid;
                Err(SendMessageError::EncryptFail)
            },
        }
    }

    /// Decrypts the 20-byte length header of a record and returns the length
    /// of the encrypted payload that follows it.
    pub fn decrypt_message_header(&mut self, message: Vec<u8>) -> (r: Result<
        u32,
        ReceiveMessageError,
    >)
        requires
            old(self).wf(),
        ensures
            old(self).same_session(final(self)),
            transition(
                old(self).spec_initiator(),
                old(self).spec_phase(),
                Step::Record,
                r is Ok,
                final(self).spec_phase(),
            ),
            old(self).spec_phase() != Phase::Transport ==> r is Err && r->Err_0
                == ReceiveMessageError::InvalidStateError,
            old(self).spec_phase() == Phase::Transport && message@.len()
                != NOISE_MESSAGE_HEADER_SIZE ==> r is Err && r->Err_0
                == ReceiveMessageError::InvalidMessageSize,
            old(self).spec_phase() == Phase::Transport && message@.len() == NOISE_MESSAGE_HEADER_SIZE
                && r is Err ==> r->Err_0 == ReceiveMessageError::DecryptFail,
            r matches Ok(l) ==> final(self).spec_opened().len() == old(self).spec_opened().len() + 1
                && final(self).spec_opened().drop_last() == old(self).spec_opened()
                && final(self).spec_opened().last().len() == 4 && l == be32_value(
                final(self).spec_opened().last(),
            ),
    {
        if !check_step(self.initiator, self.phase, Step::Record) {
            self.phase = Phase::Invalid;
            return Err(ReceiveMessageError::InvalidStateError);
        }
        if message.len() != NOISE_MESSAGE_HEADER_SIZE {
            self.phase = Phase::Invalid;
            return Err(ReceiveMessageError::InvalidMessageSize);
        }
        let opened = match &mut self.noise {
            NoiseState::Transport(ts) => match transport_read(ts, message.as_slice()) {
                Ok(p) => Some(p),
                Err(_) => None,
            },
            NoiseState::Handshake(_) => None,
        };
        match opened {
            Some(p) => {
                self.opened = Ghost(self.opened@.push(p@));
                assert(self.opened@.drop_last() =~= old(self).opened@);
                self.phase = Phase::Transport;
                Ok(record_length(p.as_slice()))
            },
            None => {
                self.phase = Phase::Invalid;
                Err(ReceiveMessageError::DecryptFail)
            },
        }
    }

    /// Decrypts the payload of a record, whose length the header gave.
    pub fn decrypt_message(&mut self, message: Vec<u8>) -> (r: Result<Vec<u8>, ReceiveMessageError>)
        requires
            old(self).wf(),
        ensures
            old(self).same_session(final(self)),
            transition(
                old(self).spec_initiator(),
                old(self).spec_phase(),
                Step::Record,
                r is Ok,
                final(self).spec_phase(),
            ),
            old(self).spec_phase() != Phase::Transport ==> r is Err && r->Err_0
                == ReceiveMessageError::InvalidStateError,
            old(self).spec_phase() == Phase::Transport && r is Err ==> r->Err_0
                == ReceiveMessageError::DecryptFail,
            r matches Ok(p) ==> p@.len() + MAC_SIZE == message@.len(),
            r matches Ok(p) ==> final(self).spec_opened() == old(self).spec_opened().push(p@),
    {
        if !check_step(self.initiator, self.phase, Step::Record) {
            self.phase = Phase::Invalid;
            return Err(ReceiveMessageError::InvalidStateError);
        }
        let opened = match &mut self.noise {
            NoiseState::Transport(ts) => match transport_read(ts, message.as_slice()) {
                Ok(p) => Some(p),
                Err(_) => None,
            },
            NoiseState::Handshake(_) => None,
        };
        match opened {
            Some(p) => {
                self.opened = Ghost(self.opened@.push(p@));
                self.phase = Phase::Transport;
                Ok(p)
            },
            None => {
                self.phase = Phase::Invalid;
                Err(ReceiveMessageError::DecryptFail)
            },
        }
    }
}

} // verus!
