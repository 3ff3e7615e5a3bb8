//! The authentication payload carried inside the second handshake message:
//! a fixed 260 byte record holding the peer's additional data and a timestamp.

use vstd::prelude::*;
use vstd::slice::slice_subrange;
use crate::wire::{
    be32_bytes, be32_value, lemma_be32_round_trip, read_u32_be, write_u32_be, AUTH_MESSAGE_SIZE,
    AUTH_TIME_OFFSET, MAX_ADDITIONAL_DATA_SIZE,
};

verus! {

/// The error of the payload codec.
#[derive(Debug, Clone, Copy, PartialEq, Eq, Structural)]
pub enum AuthPayloadError {
    InvalidAuthPayload,
}

/// The peer's additional data and a unix timestamp.
pub struct AuthenticateMessage {
    pub additional_data: Vec<u8>,
    pub unix_time: u32,
}

/// The wire form of a payload: the length byte, the additional data, zero
/// padding up to 255 bytes of data, then the timestamp big-endian.
pub open spec fn serialize(ad: Seq<u8>, t: u32) -> Seq<u8> {
    seq![ad.len() as u8] + ad + Seq::new((MAX_ADDITIONAL_DATA_SIZE - ad.len()) as nat, |i: int| 0u8)
        + be32_bytes(t)
}

/// The additional data that a 260 byte wire form holds: as many bytes after
/// the length byte as that byte says.
pub open spec fn parsed_additional_data(b: Seq<u8>) -> Seq<u8> {
    b.subrange(1, 1 + b[0] as int)
}

/// The timestamp that a 260 byte wire form holds, in its last four bytes.
pub open spec fn parsed_unix_time(b: Seq<u8>) -> u32 {
    be32_value(b.subrange(AUTH_TIME_OFFSET as int, AUTH_MESSAGE_SIZE as int))
}

impl AuthenticateMessage {
    /// Serializes the payload into its fixed size wire form.
    pub fn to_vec(&self) -> (r: Result<Vec<u8>, AuthPayloadError>)
        ensures
            self.additional_data@.len() > MAX_ADDITIONAL_DATA_SIZE <==> r is Err,
            r matches Ok(v) ==> v@ == serialize(self.additional_data@, self.unix_time),
            r matches Ok(v) ==> v@.len() == AUTH_MESSAGE_SIZE,
            r matches Err(e) ==> e == AuthPayloadError::InvalidAuthPayload,
    {
        let len = self.additional_data.len();
        if len > MAX_ADDITIONAL_DATA_SIZE {
            return Err(AuthPayloadError::InvalidAuthPayload);
        }
        let mut out: Vec<u8> = Vec::with_capacity(AUTH_MESSAGE_SIZE);
        out.push(len as u8);
        let mut i: usize = 0;
        while i < len
            invariant
                len == self.additional_data@.len(),
                len <= MAX_ADDITIONAL_DATA_SIZE,
                i <= len,
                out@ == seq![len as u8] + self.additional_data@.subrange(0, i as int),
            decreases len - i,
        {
            out.push(self.additional_data[i]);
            i = i + 1;
            assert(self.additional_data@.subrange(0, i as int) == self.additional_data@.subrange(
                0,
                i - 1,
            ).push(self.additional_data@[i - 1]));
        }
        assert(self.additional_data@.subrange(0, len as int) == self.additional_data@);
        let ghost prefix = out@;
        while i < MAX_ADDITIONAL_DATA_SIZE
            invariant
                len <= i <= MAX_ADDITIONAL_DATA_SIZE,
                out@ == prefix + Seq::new((i - len) as nat, |j: int| 0u8),
            decreases MAX_ADDITIONAL_DATA_SIZE - i,
        {
            out.push(0u8);
            i = i + 1;
            assert(Seq::new((i - len) as nat, |j: int| 0u8) == Seq::new(
                (i - 1 - len) as nat,
                |j: int| 0u8,
            ).push(0u8));
        }
        let time = write_u32_be(self.unix_time);
        let mut k: usize = 0;
        let ghost padded = out@;
        while k < 4
            invariant
                k <= 4,
                time@ == be32_bytes(self.unix_time),
                out@ == padded + time@.subrange(0, k as int),
            decreases 4 - k,
        {
            out.push(time[k]);
            k = k + 1;
            assert(time@.subrange(0, k as int) == time@.subrange(0, k - 1).push(time@[k - 1]));
        }
        assert(time@.subrange(0, 4) == time@);
        assert(out@ =~= serialize(self.additional_data@, self.unix_time));
        Ok(out)
    }
}

/// Parses a payload from its wire form; the padding is ignored.
pub fn authenticate_message_from_bytes(b: &[u8]) -> (r: Result<AuthenticateMessage, AuthPayloadError>)
    ensures
        b@.len() != AUTH_MESSAGE_SIZE <==> r is Err,
        r matches Ok(m) ==> m.additional_data@ == parsed_additional_data(b@) && m.unix_time
            == parsed_unix_time(b@),
        r matches Err(e) ==> e == AuthPayloadError::InvalidAuthPayload,
{
    if b.len() != AUTH_MESSAGE_SIZE {
        return Err(AuthPayloadError::InvalidAuthPayload);
    }
    let ad_len = b[0] as usize;
    let mut additional_data: Vec<u8> = Vec::with_capacity(ad_len);
    let mut i: usize = 0;
    while i < ad_len
        invariant
            b@.len() == AUTH_MESSAGE_SIZE,
            ad_len == b@[0],
            i <= ad_len,
            additional_data@ == b@.subrange(1, 1 + i as int),
        decreases ad_len - i,
    {
        additional_data.push(b[1 + i]);
        i = i + 1;
        assert(b@.subrange(1, 1 + i as int) == b@.subrange(1, i as int).push(b@[i as int]));
    }
    let time_bytes = slice_subrange(b, AUTH_TIME_OFFSET, AUTH_MESSAGE_SIZE);
    let unix_time = read_u32_be(time_bytes);
    Ok(AuthenticateMessage { additional_data, unix_time })
}

/// Parsing the wire form of a payload gives back its additional data and
/// timestamp, for any additional data of at most 255 bytes and any timestamp.
pub proof fn lemma_auth_round_trip(ad: Seq<u8>, t: u32)
    requires
        ad.len() <= MAX_ADDITIONAL_DATA_SIZE,
    ensures
        serialize(ad, t).len() == AUTH_MESSAGE_SIZE,
        parsed_additional_data(serialize(ad, t)) == ad,
        parsed_unix_time(serialize(ad, t)) == t,
{
    let s = serialize(ad, t);
    assert(s[0] == ad.len() as u8);
    assert(s.subrange(1, 1 + ad.len() as int) =~= ad);
    assert(s.subrange(AUTH_TIME_OFFSET as int, AUTH_MESSAGE_SIZE as int) =~= be32_bytes(t));
    lemma_be32_round_trip(t);
}

} // verus!
