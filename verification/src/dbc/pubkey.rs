//! The base strategy: a public key tweaked by a scalar derived from the
//! message (pay-to-contract).

use vstd::prelude::*;
use crate::commit_verify::CommitEmbedVerify;
use crate::dbc::curve::{add_tweak, hmac, hmac_sha256, is_curve_point, parses_as_point, tweaked_point};
use crate::dbc::types::{Error, PublicKey};

verus! {

/// A public key that commits to a message: the untweaked key plus `t*G`,
/// where `t` is the HMAC-SHA256 of the message keyed with the untweaked key's
/// bytes.
#[derive(Clone, Copy, PartialEq, Eq, Hash, Debug)]
pub struct PubkeyCommitment {
    pub tweaked: PublicKey,
}

impl View for PubkeyCommitment {
    type V = Seq<u8>;

    open spec fn view(&self) -> Seq<u8> {
        self.tweaked@
    }
}

/// The bytes of the key that commits to `msg` under the key encoded by `key`,
/// or the reason there is none.
pub open spec fn pubkey_commitment(key: Seq<u8>, msg: Seq<u8>) -> Result<Seq<u8>, Error> {
    if !is_curve_point(key) {
        Err(Error::InvalidPublicKey)
    } else {
        match tweaked_point(key, hmac_sha256(key, msg)) {
            Some(tweaked) => Ok(tweaked),
            None => Err(Error::InvalidTweak),
        }
    }
}

impl PubkeyCommitment {
    /// Turns the outcome of tweaking a valid key into a commitment: the
    /// tweaked key where there is one, `InvalidTweak` where there is none.
    pub fn from_tweak(outcome: Option<[u8; 33]>) -> (commitment: Result<PubkeyCommitment, Error>)
        ensures
            commitment == match outcome {
                Some(bytes) => Ok(PubkeyCommitment { tweaked: PublicKey { bytes } }),
                None => Err(Error::InvalidTweak),
            },
    {
        match outcome {
            Some(bytes) => Ok(PubkeyCommitment { tweaked: PublicKey { bytes } }),
            None => Err(Error::InvalidTweak),
        }
    }
}

impl CommitEmbedVerify for PubkeyCommitment {
    type Container = PublicKey;

    type Error = Error;

    open spec fn commits(container: PublicKey, msg: Seq<u8>, outcome: Result<Self, Error>) -> bool {
        match outcome {
            Ok(commitment) => pubkey_commitment(container@, msg) == Ok::<Seq<u8>, Error>(
                commitment@,
            ),
            Err(error) => pubkey_commitment(container@, msg) == Err::<Seq<u8>, Error>(error),
        }
    }

    proof fn commit_is_deterministic(
        container: PublicKey,
        msg: Seq<u8>,
        first: Result<Self, Error>,
        second: Result<Self, Error>,
    ) {
        if let Ok(a) = first {
            if let Ok(b) = second {
                assert(a.tweaked.bytes@ == b.tweaked.bytes@);
                assert(a.tweaked.bytes == b.tweaked.bytes);
            }
        }
    }

    fn commit_embed(container: PublicKey, msg: &[u8]) -> (outcome: Result<Self, Error>) {
        if !parses_as_point(&container.bytes) {
            return Err(Error::InvalidPublicKey);
        }
        let tweak = hmac(container.bytes.as_slice(), msg);
        PubkeyCommitment::from_tweak(add_tweak(&container.bytes, &tweak))
    }

    fn verify(&self, container: PublicKey, msg: &[u8]) -> (valid: bool) {
        match PubkeyCommitment::commit_embed(container, msg) {
            Ok(commitment) => commitment.tweaked.same_as(&self.tweaked),
            Err(_) => false,
        }
    }
}

/// Which outcome committing has is decided by the key's validity and the
/// tweak alone: a key that is no curve point gives
/// `InvalidPublicKey`, a failed tweak gives `InvalidTweak`, and otherwise the
/// commitment holds the tweaked key.
pub proof fn pubkey_commit_outcomes(
    container: PublicKey,
    msg: Seq<u8>,
    outcome: Result<PubkeyCommitment, Error>,
)
    requires
        PubkeyCommitment::commits(container, msg, outcome),
    ensures
        outcome == Err::<PubkeyCommitment, Error>(Error::InvalidPublicKey) <==> !is_curve_point(
            container@,
        ),
        outcome == Err::<PubkeyCommitment, Error>(Error::InvalidTweak) <==> is_curve_point(
            container@,
        ) && tweaked_point(container@, hmac_sha256(container@, msg)) is None,
        outcome matches Ok(commitment) ==> tweaked_point(
            container@,
            hmac_sha256(container@, msg),
        ) == Some(commitment@),
        outcome != Err::<PubkeyCommitment, Error>(Error::InvalidProofSupplement),
{
}

} // verus!
