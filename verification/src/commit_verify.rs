//! The commit-embed-verify scheme shared by every commitment strategy.

use vstd::prelude::*;

verus! {

/// A commitment that is embedded into a container of public data.
///
/// Verification of a candidate commitment is recomputation: a verifier runs
/// `commit_embed` on the same container and message and compares the results.
pub trait CommitEmbedVerify: Sized {
    /// The public data the commitment is embedded into.
    type Container;

    /// What can go wrong while committing.
    type Error;

    /// Holds when `outcome` is what committing `msg` into `container` gives.
    spec fn commits(container: Self::Container, msg: Seq<u8>, outcome: Result<Self, Self::Error>) -> bool;

    /// Committing is a function of the container and the message: two
    /// outcomes of committing one message into one container are equal.
    /// Every strategy has to prove this of its own `commits`.
    proof fn commit_is_deterministic(
        container: Self::Container,
        msg: Seq<u8>,
        first: Result<Self, Self::Error>,
        second: Result<Self, Self::Error>,
    )
        requires
            Self::commits(container, msg, first),
            Self::commits(container, msg, second),
        ensures
            first == second,
    ;

    /// Commits `msg` into `container`.
    fn commit_embed(container: Self::Container, msg: &[u8]) -> (outcome: Result<Self, Self::Error>)
        ensures
            Self::commits(container, msg@, outcome),
    ;

    /// Tells whether `self` is the commitment to `msg` in `container`, by
    /// committing again and comparing.
    fn verify(&self, container: Self::Container, msg: &[u8]) -> (valid: bool)
        ensures
            valid == Self::commits(container, msg@, Ok(*self)),
    ;
}

} // verus!
