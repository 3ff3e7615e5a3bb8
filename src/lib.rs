//! Noise XX based authenticated wire protocol: the handshake state machine
//! with its embedded authentication payload, and the length framed record
//! encoding used once the handshake is over.

pub mod auth;
pub mod errors;

pub mod wire;
pub mod noise;
pub mod keys;
pub mod session;
