//! The cryptographic primitives the strategies rest on: HMAC-SHA256 and the
//! secp256k1 operations on encoded public keys. The computations are done by
//! the `bitcoin` crate; their contracts here are stated, not proved.

use vstd::prelude::*;
use bitcoin::hashes::{sha256, HashEngine, Hmac, HmacEngine};
use bitcoin::secp256k1::{PublicKey, Scalar, Secp256k1};

verus! {

/// The 32-byte HMAC-SHA256 authentication code of `msg` under `key`.
pub uninterp spec fn hmac_sha256(key: Seq<u8>, msg: Seq<u8>) -> Seq<u8>;

/// Whether `bytes` is an encoding of a point of secp256k1 that is accepted as
/// a public key.
pub uninterp spec fn is_curve_point(bytes: Seq<u8>) -> bool;

/// The compressed encoding of `P + t*G`, where `P` is the point encoded by
/// `key`, `t` the big-endian integer `tweak` and `G` the generator of
/// secp256k1; `None` where `key` encodes no point, `t` is not below the curve
/// order, or the sum is the point at infinity.
pub uninterp spec fn tweaked_point(key: Seq<u8>, tweak: Seq<u8>) -> Option<Seq<u8>>;

/// Computes HMAC-SHA256 with `bitcoin::hashes::HmacEngine<sha256::Hash>`: the
/// engine is keyed with `key`, fed `msg` once, and finalised by
/// `from_engine`. The contract names the resulting code, which depends
/// on the two byte strings alone.
#[verifier::external_body]
pub(crate) fn hmac(key: &[u8], msg: &[u8]) -> (code: [u8; 32])
    ensures
        code@ == hmac_sha256(key@, msg@),
{
    let mut engine = HmacEngine::<sha256::Hash>::new(key);
    engine.input(msg);
    let code: Hmac<sha256::Hash> = bitcoin::hashes::Hash::from_engine(engine);
    bitcoin::hashes::Hash::to_byte_array(code)
}

/// Asks `secp256k1::PublicKey::from_slice` whether the 33 bytes parse as a
/// public key. The contract names the answer.
#[verifier::external_body]
pub(crate) fn parses_as_point(key: &[u8; 33]) -> (valid: bool)
    ensures
        valid == is_curve_point(key@),
{
    PublicKey::from_slice(key).is_ok()
}

/// Adds `tweak * G` to the key with `secp256k1::PublicKey::add_exp_tweak`,
/// after parsing the key with `PublicKey::from_slice` and the tweak with
/// `Scalar::from_be_bytes`, and serialises the sum in compressed form. Any of
/// the three calls failing gives `None`. The contract names the outcome.
#[verifier::external_body]
pub(crate) fn add_tweak(key: &[u8; 33], tweak: &[u8; 32]) -> (sum: Option<[u8; 33]>)
    ensures
        sum matches Some(bytes) ==> tweaked_point(key@, tweak@) == Some(bytes@),
        sum is None ==> tweaked_point(key@, tweak@) is None,
{
    let point = PublicKey::from_slice(key).ok()?;
    let scalar = Scalar::from_be_bytes(*tweak).ok()?;
    let context = Secp256k1::verification_only();
    point.add_exp_tweak(&context, &scalar).ok().map(|tweaked| tweaked.serialize())
}

} // verus!
