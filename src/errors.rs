//! The error kinds of each phase of a session.

use vstd::prelude::*;

verus! {

/// Errors of the command layer that sits above the wire protocol.
#[derive(Debug, Clone, Copy, PartialEq, Eq, Structural)]
pub enum CommandError {
    GetConsensusDecodeError,
    ConsensusDecodeError,
    PostDescriptorDecodeError,
    PostDescriptorStatusDecodeError,
    VoteDecodeError,
    VoteStatusDecodeError,
    RetreiveMessageDecodeError,
    MessageDecodeError,
    InvalidMessageType,
    InvalidStateError,
}

impl CommandError {
    /// The human readable text of each kind.
    pub open spec fn text(&self) -> Seq<char> {
        match self {
            CommandError::GetConsensusDecodeError => "Failed to decode a Get Consensus command."@,
            CommandError::ConsensusDecodeError => "Failed to decode a Consensus command."@,
            CommandError::PostDescriptorDecodeError => "Failed to decode a PostDescriptor command."@,
            CommandError::PostDescriptorStatusDecodeError => "Failed to decode a PostDescriptor command."@,
            CommandError::VoteDecodeError => "Failed to decode a Vote command."@,
            CommandError::VoteStatusDecodeError => "Failed to decode a VoteStatus command."@,
            CommandError::RetreiveMessageDecodeError => "Failed to decode a RetreiveMessage command."@,
            CommandError::MessageDecodeError => "Failed to decode a Message command."@,
            CommandError::InvalidMessageType => "Failed to decode a Message command with invalid type."@,
            CommandError::InvalidStateError => "Encountered invalid state transition."@,
        }
    }

    /// The human readable text of this error.
    pub fn message(&self) -> (r: &'static str)
        ensures
            r@ == self.text(),
    {
        match self {
            CommandError::GetConsensusDecodeError => "Failed to decode a Get Consensus command.",
            CommandError::ConsensusDecodeError => "Failed to decode a Consensus command.",
            CommandError::PostDescriptorDecodeError => "Failed to decode a PostDescriptor command.",
            CommandError::PostDescriptorStatusDecodeError => "Failed to decode a PostDescriptor command.",
            CommandError::VoteDecodeError => "Failed to decode a Vote command.",
            CommandError::VoteStatusDecodeError => "Failed to decode a VoteStatus command.",
            CommandError::RetreiveMessageDecodeError => "Failed to decode a RetreiveMessage command.",
            CommandError::MessageDecodeError => "Failed to decode a Message command.",
            CommandError::InvalidMessageType => "Failed to decode a Message command with invalid type.",
            CommandError::InvalidStateError => "Encountered invalid state transition.",
        }
    }

    /// The same text as an owned string.
    pub fn to_string(&self) -> (r: String)
        ensures
            r@ == self.text(),
    {
        String::from_str(self.message())
    }

    /// A short description shared by every kind.
    pub fn description(&self) -> (r: &'static str)
        ensures
            r@ == "I'm a modem error."@,
    {
        "I'm a modem error."
    }
}

/// Errors of session construction, of the handshake and of the switch to transport mode.
#[derive(Debug, Clone, Copy, PartialEq, Eq, Structural)]
pub enum HandshakeError {
    ServerFailedToDecodeRemoteStatic,
    ClientFailedToDecodeRemoteStatic,
    ClientFailedToGetRemoteStatic,
    ClientHandshakeInvalidAuthError,
    InvalidNoiseSpecError,
    NoPeerKeyError,
    MessageFactoryCreateError,
    InvalidStateError,
    ClientHandshakeNoise1Error,
    ClientHandshakeNoise2Error,
    ClientHandshakeNoise3Error,
    ClientHandshakeSend1Error,
    ClientHandshakeSend2Error,
    ClientHandshakeReceiveError,
    ClientAuthenticationError,
    ServerHandshakeReceive1Error,
    ServerHandshakeReceive2Error,
    ServerHandshakeSendError,
    ServerHandshakeNoise1Error,
    ServerHandshakeNoise2Error,
    ServerHandshakeNoise3Error,
    ServerPrologueMismatchError,
    ServerAuthenticationError,
    DataTransferFail,
    SessionCreateError,
}

impl HandshakeError {
    /// The human readable text of each kind.
    pub open spec fn text(&self) -> Seq<char> {
        match self {
            HandshakeError::ServerFailedToDecodeRemoteStatic => "Server failed to decode the remote peer static key."@,
            HandshakeError::ClientFailedToDecodeRemoteStatic => "Client failed to decode the remote peer static key."@,
            HandshakeError::ClientFailedToGetRemoteStatic => "Client failed to get the remote peer static key."@,
            HandshakeError::ClientHandshakeInvalidAuthError => "Invalid auth message error."@,
            HandshakeError::InvalidNoiseSpecError => "Invalid noise protocol string."@,
            HandshakeError::NoPeerKeyError => "No peer key was supplied, error."@,
            HandshakeError::MessageFactoryCreateError => "Failure creating session."@,
            HandshakeError::InvalidStateError => "Invalid session state error."@,
            HandshakeError::ClientHandshakeNoise1Error => "Error preparing client handshake payload."@,
            HandshakeError::ClientHandshakeNoise2Error => "Error preparing client handshake payload."@,
            HandshakeError::ClientHandshakeNoise3Error => "Error preparing client handshake payload."@,
            HandshakeError::ClientHandshakeSend1Error => "Error sending client handshake payload."@,
            HandshakeError::ClientHandshakeSend2Error => "Error sending client handshake payload."@,
            HandshakeError::ClientHandshakeReceiveError => "Error receiving client handshake payload."@,
            HandshakeError::ClientAuthenticationError => "Error authenticating peer."@,
            HandshakeError::ServerHandshakeReceive1Error => "Error receiving server handshake payload."@,
            HandshakeError::ServerHandshakeReceive2Error => "Error receiving server handshake payload."@,
            HandshakeError::ServerHandshakeSendError => "Error sending server handshake payload."@,
            HandshakeError::ServerHandshakeNoise1Error => "Error preparing server handshake payload."@,
            HandshakeError::ServerHandshakeNoise2Error => "Error preparing server handshake payload."@,
            HandshakeError::ServerHandshakeNoise3Error => "Error preparing server handshake payload."@,
            HandshakeError::ServerPrologueMismatchError => "Error server received wrong prologue from client."@,
            HandshakeError::ServerAuthenticationError => "Error server failed to authenticate client."@,
            HandshakeError::DataTransferFail => "Error failed to switch to data transfer mode."@,
            HandshakeError::SessionCreateError => "Failure creating the noise session."@,
        }
    }

    /// The human readable text of this error.
    pub fn message(&self) -> (r: &'static str)
        ensures
            r@ == self.text(),
    {
        match self {
            HandshakeError::ServerFailedToDecodeRemoteStatic => "Server failed to decode the remote peer static key.",
            HandshakeError::ClientFailedToDecodeRemoteStatic => "Client failed to decode the remote peer static key.",
            HandshakeError::ClientFailedToGetRemoteStatic => "Client failed to get the remote peer static key.",
            HandshakeError::ClientHandshakeInvalidAuthError => "Invalid auth message error.",
            HandshakeError::InvalidNoiseSpecError => "Invalid noise protocol string.",
            HandshakeError::NoPeerKeyError => "No peer key was supplied, error.",
            HandshakeError::MessageFactoryCreateError => "Failure creating session.",
            HandshakeError::InvalidStateError => "Invalid session state error.",
            HandshakeError::ClientHandshakeNoise1Error => "Error preparing client handshake payload.",
            HandshakeError::ClientHandshakeNoise2Error => "Error preparing client handshake payload.",
            HandshakeError::ClientHandshakeNoise3Error => "Error preparing client handshake payload.",
            HandshakeError::ClientHandshakeSend1Error => "Error sending client handshake payload.",
            HandshakeError::ClientHandshakeSend2Error => "Error sending client handshake payload.",
            HandshakeError::ClientHandshakeReceiveError => "Error receiving client handshake payload.",
            HandshakeError::ClientAuthenticationError => "Error authenticating peer.",
            HandshakeError::ServerHandshakeReceive1Error => "Error receiving server handshake payload.",
            HandshakeError::ServerHandshakeReceive2Error => "Error receiving server handshake payload.",
            HandshakeError::ServerHandshakeSendError => "Error sending server handshake payload.",
            HandshakeError::ServerHandshakeNoise1Error => "Error preparing server handshake payload.",
            HandshakeError::ServerHandshakeNoise2Error => "Error preparing server handshake payload.",
            HandshakeError::ServerHandshakeNoise3Error => "Error preparing server handshake payload.",
            HandshakeError::ServerPrologueMismatchError => "Error server received wrong prologue from client.",
            HandshakeError::ServerAuthenticationError => "Error server failed to authenticate client.",
            HandshakeError::DataTransferFail => "Error failed to switch to data transfer mode.",
            HandshakeError::SessionCreateError => "Failure creating the noise session.",
        }
    }

    /// The same text as an owned string.
    pub fn to_string(&self) -> (r: String)
        ensures
            r@ == self.text(),
    {
        String::from_str(self.message())
    }

    /// A short description shared by every kind.
    pub fn description(&self) -> (r: &'static str)
        ensures
            r@ == "I'm a modem error."@,
    {
        "I'm a modem error."
    }
}

/// Errors of record encryption.
#[derive(Debug, Clone, Copy, PartialEq, Eq, Structural)]
pub enum SendMessageError {
    InvalidMessageSize,
    EncryptFail,
    InvalidStateError,
}

impl SendMessageError {
    /// The human readable text of each kind.
    pub open spec fn text(&self) -> Seq<char> {
        match self {
            SendMessageError::InvalidMessageSize => "Invalid message size."@,
            SendMessageError::EncryptFail => "Failure to encrypt."@,
            SendMessageError::InvalidStateError => "Invalid session state error."@,
        }
    }

    /// The human readable text of this error.
    pub fn message(&self) -> (r: &'static str)
        ensures
            r@ == self.text(),
    {
        match self {
            SendMessageError::InvalidMessageSize => "Invalid message size.",
            SendMessageError::EncryptFail => "Failure to encrypt.",
            SendMessageError::InvalidStateError => "Invalid session state error.",
        }
    }

    /// The same text as an owned string.
    pub fn to_string(&self) -> (r: String)
        ensures
            r@ == self.text(),
    {
        String::from_str(self.message())
    }

    /// A short description shared by every kind.
    pub fn description(&self) -> (r: &'static str)
        ensures
            r@ == "I'm a modem error."@,
    {
        "I'm a modem error."
    }
}

/// Errors of record decryption.
#[derive(Debug, Clone, Copy, PartialEq, Eq, Structural)]
pub enum ReceiveMessageError {
    InvalidMessageSize,
    DecryptFail,
    InvalidStateError,
}

impl ReceiveMessageError {
    /// The human readable text of each kind.
    pub open spec fn text(&self) -> Seq<char> {
        match self {
            ReceiveMessageError::InvalidMessageSize => "Invalid message size."@,
            ReceiveMessageError::DecryptFail => "Failure to encrypt."@,
            ReceiveMessageError::InvalidStateError => "Invalid session state error."@,
        }
    }

    /// The human readable text of this error.
    pub fn message(&self) -> (r: &'static str)
        ensures
            r@ == self.text(),
    {
        match self {
            ReceiveMessageError::InvalidMessageSize => "Invalid message size.",
            ReceiveMessageError::DecryptFail => "Failure to encrypt.",
            ReceiveMessageError::InvalidStateError => "Invalid session state error.",
        }
    }

    /// The same text as an owned string.
    pub fn to_string(&self) -> (r: String)
        ensures
            r@ == self.text(),
    {
        String::from_str(self.message())
    }

    /// A short description shared by every kind.
    pub fn description(&self) -> (r: &'static str)
        ensures
            r@ == "I'm a modem error."@,
    {
        "I'm a modem error."
    }
}

} // verus!
