//! The taproot strategy: a commitment in the intermediate key of a taproot
//! output that keeps anchoring a known script tree.

use vstd::prelude::*;
use crate::commit_verify::CommitEmbedVerify;
use crate::dbc::pubkey::PubkeyCommitment;
use crate::dbc::types::{bytes_equal, Container, Error, Proof, ProofSuppl, PublicKey, Sha256Hash};

verus! {

/// The internal key of a taproot output before it is tweaked by a message,
/// with the root of the script tree that the output anchors.
#[derive(Clone, Copy, PartialEq, Eq, Hash, Debug)]
pub struct TaprootContainer {
    pub script_root: Sha256Hash,
    pub intermediate_key: PublicKey,
}

impl Container for TaprootContainer {
    type Supplement = Option<()>;

    type Commitment = Option<()>;

    open spec fn restored(
        proof: Proof,
        supplement: Option<()>,
        commitment: Option<()>,
    ) -> Result<Self, Error> {
        match proof.suppl {
            ProofSuppl::Taproot(root) => Ok(
                TaprootContainer { script_root: root, intermediate_key: proof.pubkey },
            ),
            _ => Err(Error::InvalidProofSupplement),
        }
    }

    open spec fn proof_of(&self) -> Proof {
        Proof { pubkey: self.intermediate_key, suppl: ProofSuppl::Taproot(self.script_root) }
    }

    fn restore(
        proof: &Proof,
        supplement: &Option<()>,
        commitment: &Option<()>,
    ) -> (outcome: Result<Self, Error>)
        ensures
            proof.suppl is Taproot ==> outcome is Ok,
            !(proof.suppl is Taproot) ==> outcome == Err::<Self, Error>(
                Error::InvalidProofSupplement,
            ),
    {
        match &proof.suppl {
            ProofSuppl::Taproot(root) => Ok(
                TaprootContainer { script_root: *root, intermediate_key: proof.pubkey },
            ),
            _ => Err(Error::InvalidProofSupplement),
        }
    }

    fn to_proof(&self) -> (proof: Proof) {
        Proof { pubkey: self.intermediate_key, suppl: ProofSuppl::Taproot(self.script_root) }
    }
}

/// Restoring the proof of a container gives the container back, whatever
/// the supplement and commitment context.
pub proof fn restore_inverts_to_proof(
    container: TaprootContainer,
    supplement: Option<()>,
    commitment: Option<()>,
)
    ensures
        TaprootContainer::restored(container.proof_of(), supplement, commitment) == Ok::<
            TaprootContainer,
            Error,
        >(container),
{
}

/// Where restoring succeeds, the proof of the restored container is the proof
/// it was restored from.
pub proof fn to_proof_inverts_restore(
    proof: Proof,
    supplement: Option<()>,
    commitment: Option<()>,
    container: TaprootContainer,
)
    requires
        TaprootContainer::restored(proof, supplement, commitment) == Ok::<TaprootContainer, Error>(
            container,
        ),
    ensures
        container.proof_of() == proof,
{
}

/// Only a taproot supplement restores: any other kind is refused with
/// `InvalidProofSupplement`, whatever the context.
pub proof fn restore_accepts_taproot_only(
    proof: Proof,
    supplement: Option<()>,
    commitment: Option<()>,
)
    ensures
        TaprootContainer::restored(proof, supplement, commitment) is Ok <==> proof.suppl is Taproot,
        !(proof.suppl is Taproot) ==> TaprootContainer::restored(proof, supplement, commitment)
            == Err::<TaprootContainer, Error>(Error::InvalidProofSupplement),
{
}

/// A commitment in a taproot output: the commitment in the intermediate key,
/// beside the script root of the container, which the message does not touch.
#[derive(Clone, Copy, PartialEq, Eq, Hash, Debug)]
pub struct TaprootCommitment {
    pub script_root: Sha256Hash,
    pub intermediate_ke_commitment: PubkeyCommitment,
}

impl TaprootCommitment {
    /// Attaches a script root to the outcome of committing into the
    /// intermediate key. An error of the base strategy passes unchanged.
    pub fn with_script_root(
        script_root: Sha256Hash,
        base: Result<PubkeyCommitment, Error>,
    ) -> (outcome: Result<TaprootCommitment, Error>)
        ensures
            outcome == match base {
                Ok(commitment) => Ok(
                    TaprootCommitment { script_root, intermediate_ke_commitment: commitment },
                ),
                Err(error) => Err(error),
            },
    {
        match base {
            Ok(commitment) => Ok(
                TaprootCommitment { script_root, intermediate_ke_commitment: commitment },
            ),
            Err(error) => Err(error),
        }
    }

    /// Whether two commitments have the same script root and the same
    /// tweaked key.
    pub fn same_as(&self, other: &TaprootCommitment) -> (same: bool)
        ensures
            same == (*self == *other),
    {
        bytes_equal(&self.script_root, &other.script_root)
            && self.intermediate_ke_commitment.tweaked.same_as(
                &other.intermediate_ke_commitment.tweaked,
            )
    }
}

impl CommitEmbedVerify for TaprootCommitment {
    type Container = TaprootContainer;

    type Error = Error;

    open spec fn commits(container: TaprootContainer, msg: Seq<u8>, outcome: Result<Self, Error>) -> bool {
        match outcome {
            Ok(commitment) => commitment.script_root == container.script_root
                && PubkeyCommitment::commits(
                container.intermediate_key,
                msg,
                Ok(commitment.intermediate_ke_commitment),
            ),
            Err(error) => PubkeyCommitment::commits(container.intermediate_key, msg, Err(error)),
        }
    }

    proof fn commit_is_deterministic(
        container: TaprootContainer,
        msg: Seq<u8>,
        first: Result<Self, Error>,
        second: Result<Self, Error>,
    ) {
        match (first, second) {
            (Ok(a), Ok(b)) => {
                PubkeyCommitment::commit_is_deterministic(
                    container.intermediate_key,
                    msg,
                    Ok(a.intermediate_ke_commitment),
                    Ok(b.intermediate_ke_commitment),
                );
            },
            _ => {},
        }
    }

    fn commit_embed(container: TaprootContainer, msg: &[u8]) -> (outcome: Result<Self, Error>)
        ensures
            outcome matches Ok(commitment) ==> commitment.script_root == container.script_root,
    {
        let base = PubkeyCommitment::commit_embed(container.intermediate_key, msg);
        TaprootCommitment::with_script_root(container.script_root, base)
    }

    fn verify(&self, container: TaprootContainer, msg: &[u8]) -> (valid: bool) {
        match TaprootCommitment::commit_embed(container, msg) {
            Ok(commitment) => {
                proof {
                    if TaprootCommitment::commits(container, msg@, Ok(*self)) {
                        TaprootCommitment::commit_is_deterministic(
                            container,
                            msg@,
                            Ok(commitment),
                            Ok(*self),
                        );
                    }
                }
                commitment.same_as(self)
            },
            Err(_) => false,
        }
    }
}

/// The script root of a taproot commitment is the script root of the
/// container it was made from, for every message.
pub proof fn commit_keeps_script_root(
    container: TaprootContainer,
    msg: Seq<u8>,
    commitment: TaprootCommitment,
)
    requires
        TaprootCommitment::commits(container, msg, Ok(commitment)),
    ensures
        commitment.script_root == container.script_root,
{
}

} // verus!
