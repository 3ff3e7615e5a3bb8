//! Protocol constants and the big-endian integer codec used on the wire.

use byteorder::{BigEndian, ByteOrder};
use vstd::prelude::*;

verus! {

/// The Noise protocol name; any substitution breaks wire compatibility.
pub const NOISE_PARAMS: &'static str = "Noise_XX_25519_ChaChaPoly_BLAKE2b";

/// The single prologue byte, which the initiator also sends as the payload
/// of its first handshake message.
pub const PROLOGUE_BYTE: u8 = 0;

pub const PROLOGUE_SIZE: usize = 1;

pub const NOISE_MESSAGE_MAX_SIZE: usize = 65535;

pub const KEY_SIZE: usize = 32;

pub const MAC_SIZE: usize = 16;

pub const MAX_ADDITIONAL_DATA_SIZE: usize = 255;

/// Size of the serialized authentication payload.
pub const AUTH_MESSAGE_SIZE: usize = 1 + MAX_ADDITIONAL_DATA_SIZE + 4;

/// Offset of the timestamp inside the authentication payload.
pub const AUTH_TIME_OFFSET: usize = 1 + MAX_ADDITIONAL_DATA_SIZE;

/// First handshake message: ephemeral key and the clear prologue byte.
pub const NOISE_HANDSHAKE_MESSAGE1_SIZE: usize = KEY_SIZE + PROLOGUE_SIZE;

/// Second handshake message: ephemeral key, encrypted static key and the
/// encrypted authentication payload.
pub const NOISE_HANDSHAKE_MESSAGE2_SIZE: usize = KEY_SIZE + KEY_SIZE + MAC_SIZE
    + AUTH_MESSAGE_SIZE + MAC_SIZE;

/// Third handshake message: encrypted static key and an empty encrypted payload.
pub const NOISE_HANDSHAKE_MESSAGE3_SIZE: usize = KEY_SIZE + MAC_SIZE + MAC_SIZE;

/// Size of the encrypted length header of a transport record.
pub const NOISE_MESSAGE_HEADER_SIZE: usize = MAC_SIZE + 4;

/// The four bytes of `n`, most significant first.
pub open spec fn be32_bytes(n: u32) -> Seq<u8> {
    seq![(n >> 24u32) as u8, (n >> 16u32) as u8, (n >> 8u32) as u8, n as u8]
}

/// The number whose big-endian encoding is the first four bytes of `b`.
pub open spec fn be32_value(b: Seq<u8>) -> u32
    recommends
        b.len() >= 4,
{
    ((b[0] as u32) << 24u32) | ((b[1] as u32) << 16u32) | ((b[2] as u32) << 8u32) | (b[3] as u32)
}

/// Decoding the encoding of a number gives the number back.
pub proof fn lemma_be32_round_trip(n: u32)
    ensures
        be32_value(be32_bytes(n)) == n,
{
    let b = be32_bytes(n);
    let b0 = (n >> 24u32) as u8;
    let b1 = (n >> 16u32) as u8;
    let b2 = (n >> 8u32) as u8;
    let b3 = n as u8;
    assert(b[0] == b0 && b[1] == b1 && b[2] == b2 && b[3] == b3);
    assert(((b0 as u32) << 24u32) | ((b1 as u32) << 16u32) | ((b2 as u32) << 8u32) | (b3 as u32)
        == n) by (bit_vector)
        requires
            b0 == (n >> 24u32) as u8,
            b1 == (n >> 16u32) as u8,
            b2 == (n >> 8u32) as u8,
            b3 == n as u8,
    ;
}

/// Relies on byteorder's `BigEndian::write_u32`, which stores `n` most
/// significant byte first into the first four bytes of the buffer.
#[verifier::external_body]
pub(crate) fn write_u32_be(n: u32) -> (r: [u8; 4])
    ensures
        r@ == be32_bytes(n),
{
    let mut buf = [0u8; 4];
    BigEndian::write_u32(&mut buf, n);
    buf
}

/// Relies on byteorder's `BigEndian::read_u32`, which reads the first four
/// bytes of the buffer most significant first (and panics on a shorter one).
#[verifier::external_body]
pub(crate) fn read_u32_be(buf: &[u8]) -> (r: u32)
    requires
        buf@.len() >= 4,
    ensures
        r == be32_value(buf@),
{
    BigEndian::read_u32(buf)
}

} // verus!
