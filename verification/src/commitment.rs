//! Identities, commitments, and the test that a reveal matches a commitment.
//! The one-way hash is Keccak-256, computed by `alloy_primitives::keccak256`.

use vstd::prelude::*;
use crate::choice::Choice;

verus! {

/// A 20-byte identity.
#[derive(Clone, Copy, Debug, PartialEq, Eq)]
pub struct Address {
    pub bytes: [u8; 20],
}

/// A 32-byte value: a commitment, a hash, or a blinding factor.
#[derive(Clone, Copy, Debug, PartialEq, Eq)]
pub struct Bytes32 {
    pub bytes: [u8; 32],
}

impl View for Address {
    type V = Seq<u8>;

    open spec fn view(&self) -> Seq<u8> {
        self.bytes@
    }
}

impl View for Bytes32 {
    type V = Seq<u8>;

    open spec fn view(&self) -> Seq<u8> {
        self.bytes@
    }
}

impl Address {
    /// Whether the two identities are the same.
    pub fn same(&self, other: &Address) -> (r: bool)
        ensures
            r == (self@ == other@),
    {
        let mut i: usize = 0;
        while i < 20
            invariant
                i <= 20,
                forall|k: int| 0 <= k < i ==> self.bytes@[k] == other.bytes@[k],
            decreases 20 - i,
        {
            if self.bytes[i] != other.bytes[i] {
                return false;
            }
            i = i + 1;
        }
        assert(self@ =~= other@);
        true
    }
}

impl Bytes32 {
    /// Whether the two values are the same.
    pub fn same(&self, other: &Bytes32) -> (r: bool)
        ensures
            r == (self@ == other@),
    {
        let mut i: usize = 0;
        while i < 32
            invariant
                i <= 32,
                forall|k: int| 0 <= k < i ==> self.bytes@[k] == other.bytes@[k],
            decreases 32 - i,
        {
            if self.bytes[i] != other.bytes[i] {
                return false;
            }
            i = i + 1;
        }
        assert(self@ =~= other@);
        true
    }
}

/// The Keccak-256 digest of a byte string, as `alloy_primitives::keccak256`
/// computes it.
pub uninterp spec fn keccak256_digest(bytes: Seq<u8>) -> Seq<u8>;

/// `alloy_primitives::keccak256`: the 32-byte Keccak-256 digest of `bytes`.
#[verifier::external_body]
fn keccak256(bytes: &Vec<u8>) -> (r: Bytes32)
    ensures
        r@ == keccak256_digest(bytes@),
{
    Bytes32 { bytes: alloy_primitives::keccak256(bytes).0 }
}

/// The bytes that a commitment is the digest of: the choice's number, then
/// the blinding factor, then the committer's identity, 53 bytes in all.
pub open spec fn preimage_of(choice: Choice, blinding: Seq<u8>, committer: Seq<u8>) -> Seq<u8> {
    seq![choice.code()] + blinding + committer
}

/// The commitment that binds `choice` and `blinding` to `committer`.
pub open spec fn commitment_of(choice: Choice, blinding: Seq<u8>, committer: Seq<u8>) -> Seq<u8> {
    keccak256_digest(preimage_of(choice, blinding, committer))
}

/// Whether revealing `choice` with `blinding` by `committer` opens `commitment`.
pub open spec fn opens(
    commitment: Seq<u8>,
    choice: Choice,
    blinding: Seq<u8>,
    committer: Seq<u8>,
) -> bool {
    commitment == commitment_of(choice, blinding, committer)
}

/// Lays out the bytes that are hashed into a commitment.
pub fn preimage(choice: Choice, blinding: &Bytes32, committer: &Address) -> (r: Vec<u8>)
    ensures
        r@ == preimage_of(choice, blinding@, committer@),
        r@.len() == 53,
{
    let mut out: Vec<u8> = Vec::new();
    out.push(choice.to_u8());
    let mut i: usize = 0;
    while i < 32
        invariant
            i <= 32,
            out@ == seq![choice.code()] + blinding@.subrange(0, i as int),
        decreases 32 - i,
    {
        out.push(blinding.bytes[i]);
        assert(blinding@.subrange(0, i + 1) =~= blinding@.subrange(0, i as int).push(
            blinding@[i as int],
        ));
        assert(out@ =~= seq![choice.code()] + blinding@.subrange(0, i + 1));
        i = i + 1;
    }
    assert(blinding@.subrange(0, 32) =~= blinding@);
    let mut j: usize = 0;
    while j < 20
        invariant
            j <= 20,
            out@ == seq![choice.code()] + blinding@ + committer@.subrange(0, j as int),
        decreases 20 - j,
    {
        out.push(committer.bytes[j]);
        assert(committer@.subrange(0, j + 1) =~= committer@.subrange(0, j as int).push(
            committer@[j as int],
        ));
        assert(out@ =~= seq![choice.code()] + blinding@ + committer@.subrange(0, j + 1));
        j = j + 1;
    }
    assert(committer@.subrange(0, 20) =~= committer@);
    out
}

/// Whether `digest`, the hash of a reveal's bytes, is the stored commitment.
pub fn matches_commitment(commitment: &Bytes32, digest: &Bytes32) -> (r: bool)
    ensures
        r == (commitment@ == digest@),
{
    commitment.same(digest)
}

/// The commitment that a player publishes to bind `choice` and `blinding` to
/// their identity.
pub fn commitment_for(choice: Choice, blinding: &Bytes32, committer: &Address) -> (r: Bytes32)
    ensures
        r@ == commitment_of(choice, blinding@, committer@),
{
    let bytes = preimage(choice, blinding, committer);
    keccak256(&bytes)
}

/// Accepts a reveal exactly when the hash of the choice, the blinding factor
/// and the committer's identity is the commitment.
pub fn verify(commitment: &Bytes32, choice: Choice, blinding: &Bytes32, committer: &Address) -> (r:
    bool)
    ensures
        r == opens(commitment@, choice, blinding@, committer@),
{
    let digest = commitment_for(choice, blinding, committer);
    matches_commitment(commitment, &digest)
}

} // verus!
