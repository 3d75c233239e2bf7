//! Proofs, proof supplements and the container abstraction.

use vstd::prelude::*;

verus! {

/// A SHA-256 digest, such as the merkle root of a taproot script tree.
pub type Sha256Hash = [u8; 32];

/// A secp256k1 public key in its compressed 33-byte encoding.
///
/// The bytes are carried as given: whether they encode a point of the curve
/// is decided when a commitment strategy consumes the key.
#[derive(Clone, Copy, PartialEq, Eq, Hash, Debug)]
pub struct PublicKey {
    pub bytes: [u8; 33],
}

impl View for PublicKey {
    type V = Seq<u8>;

    open spec fn view(&self) -> Seq<u8> {
        self.bytes@
    }
}

impl PublicKey {
    /// Whether two keys have the same bytes.
    pub fn same_as(&self, other: &PublicKey) -> (same: bool)
        ensures
            same == (*self == *other),
            same == (self@ == other@),
    {
        bytes_equal(&self.bytes, &other.bytes)
    }
}

/// Whether two byte arrays of one length hold the same bytes.
pub fn bytes_equal<const N: usize>(left: &[u8; N], right: &[u8; N]) -> (same: bool)
    ensures
        same == (*left == *right),
        same == (left@ == right@),
{
    let mut i: usize = 0;
    while i < N
        invariant
            i <= N,
            forall|j: int| 0 <= j < i ==> left@[j] == right@[j],
        decreases N - i,
    {
        if left[i] != right[i] {
            return false;
        }
        i += 1;
    }
    proof {
        assert(left@ =~= right@);
        assert(*left =~= *right);
    }
    true
}

/// The bytes of a redeem script.
#[derive(Clone, PartialEq, Eq, Hash, Debug)]
pub struct RedeemScript {
    pub bytes: Vec<u8>,
}

/// Errors of the commitment strategies.
#[derive(Clone, Copy, PartialEq, Eq, Hash, Debug)]
pub enum Error {
    /// The supplement of a proof is not of the kind the strategy expects.
    InvalidProofSupplement,
    /// The key bytes of a container do not encode a point of the curve.
    InvalidPublicKey,
    /// The scalar derived from the message is not below the curve order, or
    /// adding it to the key gives the point at infinity.
    InvalidTweak,
}

/// How a commitment was embedded.
#[derive(Clone, PartialEq, Eq, Hash, Debug)]
#[non_exhaustive]
pub enum ProofSuppl {
    /// A pure key tweak with no auxiliary structure.
    Absent,
    /// Embedded through a known redeem script.
    RedeemScript(RedeemScript),
    /// Embedded through the merkle root of a taproot script tree.
    Taproot(Sha256Hash),
}

/// What a verifier needs, besides the message, to recompute a commitment.
#[derive(Clone, PartialEq, Eq, Hash, Debug)]
pub struct Proof {
    pub pubkey: PublicKey,
    pub suppl: ProofSuppl,
}

/// Public data of one strategy that a commitment is embedded into.
pub trait Container: Sized {
    /// Supplemental data, beyond the proof, needed to rebuild the container.
    type Supplement;

    /// Commitment data, beyond the proof, needed to rebuild the container.
    type Commitment;

    /// The outcome of rebuilding a container from a proof and its context.
    spec fn restored(
        proof: Proof,
        supplement: Self::Supplement,
        commitment: Self::Commitment,
    ) -> Result<Self, Error>;

    /// The proof that discloses this container.
    spec fn proof_of(&self) -> Proof;

    /// Rebuilds a container from a disclosed proof and its context.
    fn restore(
        proof: &Proof,
        supplement: &Self::Supplement,
        commitment: &Self::Commitment,
    ) -> (outcome: Result<Self, Error>)
        ensures
            outcome == Self::restored(*proof, *supplement, *commitment),
    ;

    /// Discloses the container as a proof.
    fn to_proof(&self) -> (proof: Proof)
        ensures
            proof == self.proof_of(),
    ;
}

} // verus!
