//! The commitment codec: raw 32-byte commitments on one side, validated
//! domain elements on the other.

use vstd::prelude::*;
use filecoin_hashers::poseidon::PoseidonDomain;
use filecoin_hashers::sha256::Sha256Domain;
use crate::types::{Commitment, UpdateError};

verus! {

/// The hash function whose digests a domain element belongs to.
#[derive(Clone, Copy, Debug, PartialEq, Eq)]
pub enum HasherKind {
    /// Poseidon: replica trees (`comm_c`, `comm_r`, `comm_r_last`).
    Poseidon,
    /// SHA-256: the data tree (`comm_d`).
    Sha256,
}

/// An element of a hasher's domain, held as its 32-byte representation.
///
/// Both domains take every value of 32 bytes for an element, so the type has
/// no invariant beyond its size.
#[derive(Clone, Copy, Debug, PartialEq, Eq)]
pub struct Domain {
    pub hasher: HasherKind,
    pub repr: [u8; 32],
}

/// The mathematical value of a [`Domain`].
pub struct DomainView {
    pub hasher: HasherKind,
    pub repr: Seq<u8>,
}

impl View for Domain {
    type V = DomainView;

    open spec fn view(&self) -> DomainView {
        DomainView { hasher: self.hasher, repr: self.repr@ }
    }
}

/// The element that `bytes` decode to, if they are a valid commitment.
pub open spec fn decode_spec(hasher: HasherKind, bytes: Seq<u8>) -> Option<DomainView> {
    if bytes.len() == 32 {
        Some(DomainView { hasher, repr: bytes })
    } else {
        None
    }
}

/// The raw commitment of a domain element.
pub open spec fn encode_spec(d: DomainView) -> Seq<u8> {
    d.repr
}

/// Whether every byte of `bytes` is zero.
pub open spec fn is_zero_spec(bytes: Seq<u8>) -> bool {
    forall|i: int| 0 <= i < bytes.len() ==> bytes[i] == 0u8
}

/// `filecoin_hashers::Domain::try_from_bytes` on the Poseidon domain, handing
/// the element back as its 32 bytes. The element exists exactly when `raw` is
/// 32 bytes long, and then holds those bytes unchanged.
#[verifier::external_body]
fn poseidon_try_from_bytes(raw: &[u8]) -> (r: Option<[u8; 32]>)
    ensures
        r is Some <==> raw@.len() == 32,
        r is Some ==> r.unwrap()@ == raw@,
{
    match <PoseidonDomain as filecoin_hashers::Domain>::try_from_bytes(raw) {
        Ok(d) => Some(d.into()),
        Err(_) => None,
    }
}

/// `filecoin_hashers::Domain::try_from_bytes` on the SHA-256 domain, handing
/// the element back as its 32 bytes. The element exists exactly when `raw` is
/// 32 bytes long, and then holds those bytes unchanged.
#[verifier::external_body]
fn sha256_try_from_bytes(raw: &[u8]) -> (r: Option<[u8; 32]>)
    ensures
        r is Some <==> raw@.len() == 32,
        r is Some ==> r.unwrap()@ == raw@,
{
    match <Sha256Domain as filecoin_hashers::Domain>::try_from_bytes(raw) {
        Ok(d) => Some(d.into()),
        Err(_) => None,
    }
}

/// `filecoin_hashers::Domain::write_bytes` on the Poseidon element with the
/// representation `repr`, into a fresh 32-byte buffer. The buffer receives the
/// representation unchanged.
#[verifier::external_body]
fn poseidon_write_bytes(repr: &[u8; 32]) -> (out: [u8; 32])
    ensures
        out@ == repr@,
{
    let mut out = [0u8; 32];
    <PoseidonDomain as filecoin_hashers::Domain>::write_bytes(&PoseidonDomain::from(*repr), &mut out)
        .expect("a 32-byte buffer holds a domain element");
    out
}

/// `filecoin_hashers::Domain::write_bytes` on the SHA-256 element with the
/// representation `repr`, into a fresh 32-byte buffer. The buffer receives the
/// representation unchanged.
#[verifier::external_body]
fn sha256_write_bytes(repr: &[u8; 32]) -> (out: [u8; 32])
    ensures
        out@ == repr@,
{
    let mut out = [0u8; 32];
    <Sha256Domain as filecoin_hashers::Domain>::write_bytes(&Sha256Domain::from(*repr), &mut out)
        .expect("a 32-byte buffer holds a domain element");
    out
}

/// Decodes a raw commitment into an element of `hasher`'s domain.
///
/// Fails with [`UpdateError::InvalidCommitment`] exactly when `bytes` is not a
/// valid element, which is when its length is not 32: the value of the bytes
/// is not looked at.
pub fn decode(hasher: HasherKind, bytes: &[u8]) -> (r: Result<Domain, UpdateError>)
    ensures
        match r {
            Ok(d) => decode_spec(hasher, bytes@) == Some(d@),
            Err(e) => decode_spec(hasher, bytes@) is None && e == UpdateError::InvalidCommitment,
        },
{
    let parsed = match hasher {
        HasherKind::Poseidon => poseidon_try_from_bytes(bytes),
        HasherKind::Sha256 => sha256_try_from_bytes(bytes),
    };
    match parsed {
        Some(repr) => Ok(Domain { hasher, repr }),
        None => Err(UpdateError::InvalidCommitment),
    }
}

/// Encodes a domain element as a raw commitment. Never fails.
pub fn encode(d: &Domain) -> (out: Commitment)
    ensures
        out@ == encode_spec(d@),
{
    match d.hasher {
        HasherKind::Poseidon => poseidon_write_bytes(&d.repr),
        HasherKind::Sha256 => sha256_write_bytes(&d.repr),
    }
}

/// Whether a commitment is the all-zero value, which no trusted root may be.
pub fn is_zero(c: &Commitment) -> (r: bool)
    ensures
        r == is_zero_spec(c@),
{
    let mut i: usize = 0;
    while i < 32
        invariant
            i <= 32,
            forall|j: int| 0 <= j < i ==> c@[j] == 0u8,
        decreases 32 - i,
    {
        if c[i] != 0 {
            return false;
        }
        i += 1;
    }
    true
}

/// Decoding a valid commitment and encoding the element gives the commitment back.
pub proof fn lemma_encode_decode_round_trip(hasher: HasherKind, b: Seq<u8>)
    requires
        b.len() == 32,
    ensures
        decode_spec(hasher, b) is Some,
        encode_spec(decode_spec(hasher, b).unwrap()) == b,
{
}

/// Encoding an element and decoding the commitment gives the element back.
pub proof fn lemma_decode_encode_round_trip(d: DomainView)
    requires
        d.repr.len() == 32,
    ensures
        decode_spec(d.hasher, encode_spec(d)) == Some(d),
{
}

/// Bytes of any length but 32 are no commitment.
pub proof fn lemma_decode_rejects_other_lengths(hasher: HasherKind, b: Seq<u8>)
    requires
        b.len() != 32,
    ensures
        decode_spec(hasher, b) is None,
{
}

/// Decoding depends on nothing but the bytes: two hashers accept the same
/// commitments and keep the same representation.
pub proof fn lemma_decode_keeps_bytes(hasher: HasherKind, b: Seq<u8>)
    ensures
        decode_spec(hasher, b) matches Some(d) ==> d.repr == b && d.hasher == hasher,
{
}

} // verus!
