//! The verification engine: SHA-256 digesting and ECDSA/secp256k1
//! signature verification, dispatched on a normalized [`KeyType`].
//!
//! The two cryptographic primitives are outside calls; each stands behind
//! a trusted wrapper whose contract names its result, and everything that
//! depends on the outcome is verified against those names.

use vstd::prelude::*;

use crate::keys::KeyType;
use sha2::Digest;

verus! {

/// Distinct failure modes of the verification engine, apart from the
/// boolean verdict itself.
#[derive(Clone, Copy, Debug, PartialEq, Eq, Structural)]
pub enum VerifyError {
    /// Key or signature bytes of a shape the verifier does not accept.
    MalformedInput,
    /// A recognized key type that currently has no active verifier.
    UnsupportedKeyType,
}

/// The SHA-256 digest of a byte sequence.
pub uninterp spec fn sha256_of(data: Seq<u8>) -> Seq<u8>;

/// Whether `signature` is a valid ECDSA/secp256k1 signature over the
/// 32-byte `message_hash` under the SEC1-encoded `public_key`.
pub uninterp spec fn secp256k1_valid(
    message_hash: Seq<u8>,
    signature: Seq<u8>,
    public_key: Seq<u8>,
) -> bool;

/// Whether the verifier accepts `signature` and `public_key` as
/// parseable: the signature's scalars in range and the key an actual
/// curve point. These are the only checks
/// `cosmwasm_crypto::secp256k1_verify` applies beyond the length and
/// shape tests, and each depends on its byte string alone.
pub uninterp spec fn secp256k1_accepts(signature: Seq<u8>, public_key: Seq<u8>) -> bool;

/// The shape check the verifier applies to a SEC1-encoded secp256k1
/// public key: 33 bytes tagged `0x02`/`0x03` (compressed) or 65 bytes
/// tagged `0x04` (uncompressed).
pub open spec fn secp256k1_pubkey_shape(pk: Seq<u8>) -> bool {
    ||| (pk.len() == 33 && (pk[0] == 2u8 || pk[0] == 3u8))
    ||| (pk.len() == 65 && pk[0] == 4u8)
}

/// Relies on `sha2::Sha256::digest`: the SHA-256 digest, a 32-byte value
/// determined by the input bytes alone.
#[verifier::external_body]
fn sha256_digest(data: &[u8]) -> (r: Vec<u8>)
    ensures
        r@ == sha256_of(data@),
        r@.len() == 32,
{
    sha2::Sha256::digest(data).to_vec()
}

/// Relies on `cosmwasm_crypto::secp256k1_verify`: ECDSA/secp256k1
/// verification of a 32-byte message hash against a 64-byte compact
/// signature and a SEC1-encoded public key, an outcome determined by the
/// three inputs alone. The call returns a verdict (here: `Some`) exactly
/// when the hash is 32 bytes, the signature is 64 bytes, the key has an
/// accepted SEC1 shape, and signature and key parse
/// ([`secp256k1_accepts`]); otherwise it reports no verdict.
#[verifier::external_body]
fn secp256k1_check(message_hash: &[u8], signature: &[u8], public_key: &[u8]) -> (r: Option<bool>)
    ensures
        r is Some <==> (message_hash@.len() == 32 && signature@.len() == 64
            && secp256k1_pubkey_shape(public_key@) && secp256k1_accepts(
            signature@,
            public_key@,
        )),
        r matches Some(b) ==> b == secp256k1_valid(message_hash@, signature@, public_key@),
{
    match cosmwasm_crypto::secp256k1_verify(message_hash, signature, public_key) {
        Ok(b) => Some(b),
        Err(_) => None,
    }
}

/// Verifies `signature` over the SHA-256 digest of `payload` under
/// `public_key`, dispatching on the normalized key type.
///
/// For `Secp256k1` a boolean verdict is returned exactly when signature
/// and key have accepted shapes and parse, and is then
/// [`secp256k1_valid`] of the digest; malformed key or signature bytes
/// surface as `MalformedInput` rather than as a verdict. `Ed25519` is a
/// recognized classification with no active verifier and always surfaces
/// as `UnsupportedKeyType`, never as a silent `false`.
pub fn verify(
    payload: &[u8],
    signature: &[u8],
    public_key: &[u8],
    key_type: KeyType,
) -> (r: Result<bool, VerifyError>)
    ensures
        key_type == KeyType::Ed25519 ==> r == Err::<bool, VerifyError>(
            VerifyError::UnsupportedKeyType,
        ),
        key_type == KeyType::Secp256k1 ==> match r {
            Ok(b) => signature@.len() == 64 && secp256k1_pubkey_shape(public_key@)
                && secp256k1_accepts(signature@, public_key@) && b == secp256k1_valid(
                sha256_of(payload@),
                signature@,
                public_key@,
            ),
            Err(e) => e == VerifyError::MalformedInput && (signature@.len() != 64
                || !secp256k1_pubkey_shape(public_key@) || !secp256k1_accepts(
                signature@,
                public_key@,
            )),
        },
        key_type == KeyType::Secp256k1 && signature@.len() == 64 && secp256k1_pubkey_shape(
            public_key@,
        ) && secp256k1_accepts(signature@, public_key@) ==> r == Ok::<bool, VerifyError>(
            secp256k1_valid(sha256_of(payload@), signature@, public_key@),
        ),
{
    match key_type {
        KeyType::Secp256k1 => {
            let digest = sha256_digest(payload);
            match secp256k1_check(digest.as_slice(), signature, public_key) {
                Some(b) => Ok(b),
                None => Err(VerifyError::MalformedInput),
            }
        },
        KeyType::Ed25519 => Err(VerifyError::UnsupportedKeyType),
    }
}

} // verus!
