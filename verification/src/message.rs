//! The cross-chain message envelope and its fixed-layout wire codec.
//!
//! A message is encoded as `version(1) | nonce(4, big-endian) | origin(4,
//! big-endian) | sender(32) | destination(4, big-endian) | recipient(32) |
//! body`, a 77-byte header followed by the body. The message identifier is
//! the Keccak-256 hash of that encoding.

use vstd::prelude::*;

use crate::hash::{keccak256, spec_keccak256};
use crate::primitives::{spec_h256_zero, H256};

verus! {

/// Number of bytes in the fixed header that precedes the body.
pub const MESSAGE_PREFIX_LEN: usize = 77;

/// A message in its raw encoded form.
pub type RawAetheriumMessage = Vec<u8>;

/// A full message between chains.
#[derive(Clone, Debug, PartialEq, Eq, Hash)]
pub struct AetheriumMessage {
    /// Protocol version number.
    pub version: u8,
    /// Message nonce.
    pub nonce: u32,
    /// Origin domain id.
    pub origin: u32,
    /// Address in origin convention.
    pub sender: H256,
    /// Destination domain id.
    pub destination: u32,
    /// Address in destination convention.
    pub recipient: H256,
    /// Message contents.
    pub body: Vec<u8>,
}

/// A 32-bit value as four big-endian bytes.
pub open spec fn spec_u32_be(n: u32) -> Seq<u8> {
    seq![
        (n >> 24u32) as u8,
        ((n >> 16u32) & 0xff) as u8,
        ((n >> 8u32) & 0xff) as u8,
        (n & 0xff) as u8,
    ]
}

/// The 32-bit value four big-endian bytes denote.
pub open spec fn spec_u32_from_be(b: Seq<u8>) -> u32
    recommends
        b.len() == 4,
{
    (((b[0] as u32) << 24u32) | ((b[1] as u32) << 16u32) | ((b[2] as u32) << 8u32) | (
    b[3] as u32)) as u32
}

/// The canonical encoding of a message.
pub open spec fn spec_encode(m: AetheriumMessage) -> Seq<u8> {
    seq![m.version] + spec_u32_be(m.nonce) + spec_u32_be(m.origin) + m.sender@ + spec_u32_be(
        m.destination,
    ) + m.recipient@ + m.body@
}

/// Appends every byte of `data` to `out`.
pub(crate) fn push_bytes(out: &mut Vec<u8>, data: &[u8])
    ensures
        final(out)@ == old(out)@ + data@,
{
    let len = data.len();
    let mut i: usize = 0;
    while i < len
        invariant
            i <= len == data@.len(),
            out@ == old(out)@ + data@.take(i as int),
        decreases len - i,
    {
        out.push(data[i]);
        proof {
            assert(old(out)@ + data@.take(i + 1) =~= (old(out)@ + data@.take(i as int)).push(
                data@[i as int],
            ));
        }
        i = i + 1;
    }
    proof {
        assert(data@.take(len as int) =~= data@);
    }
}

/// Appends a 32-bit value as four big-endian bytes.
fn push_u32_be(out: &mut Vec<u8>, n: u32)
    ensures
        final(out)@ == old(out)@ + spec_u32_be(n),
{
    assert((n >> 24u32) < 256 && ((n >> 16u32) & 0xff) < 256 && ((n >> 8u32) & 0xff) < 256 && (n
        & 0xff) < 256) by (bit_vector);
    out.push((n >> 24u32) as u8);
    out.push(((n >> 16u32) & 0xff) as u8);
    out.push(((n >> 8u32) & 0xff) as u8);
    out.push((n & 0xff) as u8);
    proof {
        assert(out@ =~= old(out)@ + spec_u32_be(n));
    }
}

/// Reads a 32-bit value from four big-endian bytes.
fn u32_from_be_slice(b: &[u8]) -> (r: u32)
    requires
        b@.len() == 4,
    ensures
        r == spec_u32_from_be(b@),
{
    ((b[0] as u32) << 24u32) | ((b[1] as u32) << 16u32) | ((b[2] as u32) << 8u32) | (b[3] as u32)
}

impl AetheriumMessage {
    /// The canonical byte encoding: the 77-byte header, then the body.
    pub fn to_vec(&self) -> (r: Vec<u8>)
        ensures
            r@ == spec_encode(*self),
            r@.len() == 77 + self.body@.len(),
    {
        let mut out: Vec<u8> = Vec::new();
        out.push(self.version);
        push_u32_be(&mut out, self.nonce);
        push_u32_be(&mut out, self.origin);
        push_bytes(&mut out, self.sender.as_bytes());
        push_u32_be(&mut out, self.destination);
        push_bytes(&mut out, self.recipient.as_bytes());
        push_bytes(&mut out, self.body.as_slice());
        proof {
            assert(out@ =~= spec_encode(*self));
        }
        out
    }

    /// Decodes a message from its canonical encoding; fails when fewer than
    /// the 77 header bytes are present. Everything after the header is the
    /// body.
    pub fn read_from(data: &[u8]) -> (r: Result<AetheriumMessage, crate::AetheriumProtocolError>)
        ensures
            match r {
                Ok(m) => {
                    &&& data@.len() >= 77
                    &&& m.version == data@[0]
                    &&& m.nonce == spec_u32_from_be(data@.subrange(1, 5))
                    &&& m.origin == spec_u32_from_be(data@.subrange(5, 9))
                    &&& m.sender@ == data@.subrange(9, 41)
                    &&& m.destination == spec_u32_from_be(data@.subrange(41, 45))
                    &&& m.recipient@ == data@.subrange(45, 77)
                    &&& m.body@ == data@.skip(77)
                },
                Err(e) => data@.len() < 77 && e is IoError,
            },
    {
        let len = data.len();
        if len < 77 {
            return Err(crate::AetheriumProtocolError::IoError);
        }
        let version = data[0];
        let nonce = u32_from_be_slice(vstd::slice::slice_subrange(data, 1, 5));
        let origin = u32_from_be_slice(vstd::slice::slice_subrange(data, 5, 9));
        let sender = H256::from_slice(vstd::slice::slice_subrange(data, 9, 41));
        let destination = u32_from_be_slice(vstd::slice::slice_subrange(data, 41, 45));
        let recipient = H256::from_slice(vstd::slice::slice_subrange(data, 45, 77));
        let body = vstd::slice::slice_to_vec(vstd::slice::slice_subrange(data, 77, len));
        proof {
            assert(data@.subrange(77, data@.len() as int) =~= data@.skip(77));
        }
        Ok(AetheriumMessage { version, nonce, origin, sender, destination, recipient, body })
    }

    /// Decodes a message from an encoding already known to hold the header.
    pub fn from_raw(data: &[u8]) -> (r: AetheriumMessage)
        requires
            data@.len() >= 77,
        ensures
            r.version == data@[0],
            r.nonce == spec_u32_from_be(data@.subrange(1, 5)),
            r.origin == spec_u32_from_be(data@.subrange(5, 9)),
            r.sender@ == data@.subrange(9, 41),
            r.destination == spec_u32_from_be(data@.subrange(41, 45)),
            r.recipient@ == data@.subrange(45, 77),
            r.body@ == data@.skip(77),
    {
        match AetheriumMessage::read_from(data) {
            Ok(m) => m,
            Err(_) => {
                proof {
                    assert(false);
                }
                AetheriumMessage {
                    version: 0,
                    nonce: 0,
                    origin: 0,
                    sender: H256::zero(),
                    destination: 0,
                    recipient: H256::zero(),
                    body: Vec::new(),
                }
            },
        }
    }

    /// The message identifier: the Keccak-256 hash of the canonical encoding.
    pub fn id(&self) -> (r: H256)
        ensures
            r@ == spec_keccak256(spec_encode(*self)),
    {
        let encoded = self.to_vec();
        H256(keccak256(encoded.as_slice()))
    }
}

impl Default for AetheriumMessage {
    /// The all-zero message at the current protocol version.
    fn default() -> (r: AetheriumMessage)
        ensures
            r.version == 3,
            r.nonce == 0,
            r.origin == 0,
            r.sender@ == spec_h256_zero(),
            r.destination == 0,
            r.recipient@ == spec_h256_zero(),
            r.body@ == Seq::<u8>::empty(),
    {
        AetheriumMessage {
            version: 3,
            nonce: 0,
            origin: 0,
            sender: H256::zero(),
            destination: 0,
            recipient: H256::zero(),
            body: Vec::new(),
        }
    }
}

/// Encoding then decoding reproduces every field of the message: the encoding
/// is at least header-sized, and each field reads back from its own slice of
/// the encoding.
pub proof fn lemma_message_round_trip(m: AetheriumMessage)
    ensures
        spec_encode(m).len() == 77 + m.body@.len(),
        spec_encode(m)[0] == m.version,
        spec_u32_from_be(spec_encode(m).subrange(1, 5)) == m.nonce,
        spec_u32_from_be(spec_encode(m).subrange(5, 9)) == m.origin,
        spec_encode(m).subrange(9, 41) == m.sender@,
        spec_u32_from_be(spec_encode(m).subrange(41, 45)) == m.destination,
        spec_encode(m).subrange(45, 77) == m.recipient@,
        spec_encode(m).skip(77) == m.body@,
{
    let e = spec_encode(m);
    assert(m.sender@.len() == 32);
    assert(m.recipient@.len() == 32);
    assert(e.subrange(1, 5) =~= spec_u32_be(m.nonce));
    assert(e.subrange(5, 9) =~= spec_u32_be(m.origin));
    assert(e.subrange(9, 41) =~= m.sender@);
    assert(e.subrange(41, 45) =~= spec_u32_be(m.destination));
    assert(e.subrange(45, 77) =~= m.recipient@);
    assert(e.skip(77) =~= m.body@);
    lemma_u32_be_round_trip(m.nonce);
    lemma_u32_be_round_trip(m.origin);
    lemma_u32_be_round_trip(m.destination);
}

/// Four big-endian bytes of a value denote the value again.
pub proof fn lemma_u32_be_round_trip(n: u32)
    ensures
        spec_u32_from_be(spec_u32_be(n)) == n,
{
    let b = spec_u32_be(n);
    assert(b[0] == (n >> 24u32) as u8 && b[1] == ((n >> 16u32) & 0xff) as u8 && b[2] == ((n
        >> 8u32) & 0xff) as u8 && b[3] == (n & 0xff) as u8);
    assert(((((n >> 24u32) as u8) as u32) << 24u32) | (((((n >> 16u32) & 0xff) as u8) as u32)
        << 16u32) | (((((n >> 8u32) & 0xff) as u8) as u32) << 8u32) | (((n & 0xff) as u8) as u32)
        == n) by (bit_vector);
}

/// Messages with the same encoding have the same identifier: the identifier
/// is a function of the encoded bytes alone.
pub proof fn lemma_id_deterministic(a: AetheriumMessage, b: AetheriumMessage)
    requires
        spec_encode(a) == spec_encode(b),
    ensures
        spec_keccak256(spec_encode(a)) == spec_keccak256(spec_encode(b)),
{
}

} // verus!
