//! Trusted boundary to the cryptographic primitives: BLS12-381 signing
//! through blst, secp256k1 ECDSA signing through k256, and SSZ-style
//! merkleization through tree_hash. Each wrapper's contract states what the
//! outside call returns; the results of the deterministic primitives are
//! given names that the rest of the library reasons about.

use vstd::prelude::*;
use k256::ecdsa::signature::hazmat::{PrehashSigner, PrehashVerifier};
use rand::RngCore;

verus! {

pub uninterp spec fn merkle_root_of(data: Seq<u8>) -> Seq<u8>;

pub uninterp spec fn bls_pubkey_of(sk: Seq<u8>) -> Seq<u8>;

pub uninterp spec fn bls_signature_of(sk: Seq<u8>, root: Seq<u8>) -> Seq<u8>;

pub uninterp spec fn bls_verifies(pk: Seq<u8>, root: Seq<u8>, sig: Seq<u8>) -> bool;

pub uninterp spec fn bls_sk_wf(sk: Seq<u8>) -> bool;

pub uninterp spec fn ecdsa_pubkey_of(sk: Seq<u8>) -> Seq<u8>;

pub uninterp spec fn ecdsa_signature_of(sk: Seq<u8>, root: Seq<u8>) -> Seq<u8>;

pub uninterp spec fn ecdsa_verifies(pk: Seq<u8>, root: Seq<u8>, sig: Seq<u8>) -> bool;

pub uninterp spec fn ecdsa_sk_wf(sk: Seq<u8>) -> bool;

/// There is at most one accepted 96-byte BLS signature for a given public
/// key and root, namely `sig`.
pub open spec fn bls_unique_sig(pk: Seq<u8>, root: Seq<u8>, sig: Seq<u8>) -> bool {
    forall|other: Seq<u8>|
        other.len() == 96 && other != sig ==> !bls_verifies(pk, root, other)
}

/// Relies on tree_hash::merkle_root with a minimum leaf count of zero: the
/// root is 32 bytes long and is a function of the input bytes alone.
#[verifier::external_body]
pub(crate) fn merkle_root(data: &Vec<u8>) -> (r: Vec<u8>)
    ensures
        r@ == merkle_root_of(data@),
        r@.len() == 32,
{
    tree_hash::merkle_root(data.as_slice(), 0).to_vec()
}

/// Relies on rand's OsRng for 32 bytes of key material and on blst's
/// min_pk::SecretKey::key_gen, sk_to_pk, to_bytes and PublicKey::compress:
/// key_gen accepts any 32-byte material and yields a valid secret scalar,
/// to_bytes/from_bytes round-trip it, and the compressed public key is a
/// function of the secret key bytes alone (48 bytes).
#[verifier::external_body]
pub(crate) fn bls_generate_keypair() -> (r: (Vec<u8>, Vec<u8>))
    ensures
        r.0@.len() == 32,
        bls_sk_wf(r.0@),
        r.1@.len() == 48,
        r.1@ == bls_pubkey_of(r.0@),
{
    let mut ikm = [0u8; 32];
    rand::rngs::OsRng.fill_bytes(&mut ikm);
    let sk = blst::min_pk::SecretKey::key_gen(&ikm, &[]).unwrap();
    let pk = sk.sk_to_pk().compress().to_vec();
    (sk.to_bytes().to_vec(), pk)
}

/// Relies on blst's min_pk::SecretKey::from_bytes and sign (with the
/// standard proof-of-possession domain tag) and Signature::compress:
/// signing is deterministic in the secret key bytes and the root; the
/// 96-byte compressed signature verifies under the signer's public key; and
/// it is the only 96-byte string that does, because the verification
/// pairing equation has exactly one solution in the signature subgroup and
/// each subgroup point has exactly one compressed encoding, which blst
/// enforces with its group and encoding checks.
#[verifier::external_body]
pub(crate) fn bls_sign(sk: &Vec<u8>, root: &Vec<u8>) -> (r: Vec<u8>)
    requires
        bls_sk_wf(sk@),
    ensures
        r@.len() == 96,
        r@ == bls_signature_of(sk@, root@),
        bls_verifies(bls_pubkey_of(sk@), root@, r@),
        bls_unique_sig(bls_pubkey_of(sk@), root@, r@),
{
    let key = blst::min_pk::SecretKey::from_bytes(sk.as_slice()).unwrap();
    let sig = key.sign(root.as_slice(), b"BLS_SIG_BLS12381G2_SHA256_SSWU_RO_POP_", &[]);
    sig.compress().to_vec()
}

/// Relies on blst's min_pk::PublicKey::from_bytes, Signature::from_bytes
/// and Signature::verify with signature group check and public key
/// validation switched on: acceptance is a function of the three byte
/// strings alone, and undecodable keys or signatures are rejected.
#[verifier::external_body]
pub(crate) fn bls_verify(pk: &Vec<u8>, root: &Vec<u8>, sig: &Vec<u8>) -> (r: bool)
    ensures
        r == bls_verifies(pk@, root@, sig@),
{
    let pk = match blst::min_pk::PublicKey::from_bytes(pk.as_slice()) {
        Ok(k) => k,
        Err(_) => return false,
    };
    let sg = match blst::min_pk::Signature::from_bytes(sig.as_slice()) {
        Ok(s) => s,
        Err(_) => return false,
    };
    let e = sg.verify(true, root.as_slice(), b"BLS_SIG_BLS12381G2_SHA256_SSWU_RO_POP_", &[], &pk, true);
    matches!(e, blst::BLST_ERROR::BLST_SUCCESS)
}

/// Relies on k256's ecdsa::SigningKey::random, to_bytes and
/// VerifyingKey::to_encoded_point: the generated scalar is valid and
/// nonzero, and the 33-byte compressed SEC1 public key is a function of the
/// secret key bytes alone.
#[verifier::external_body]
pub(crate) fn ecdsa_generate_keypair() -> (r: (Vec<u8>, Vec<u8>))
    ensures
        r.0@.len() == 32,
        ecdsa_sk_wf(r.0@),
        r.1@.len() == 33,
        r.1@ == ecdsa_pubkey_of(r.0@),
{
    let sk = k256::ecdsa::SigningKey::random(&mut rand::rngs::OsRng);
    let pk = sk.verifying_key().to_encoded_point(true).as_bytes().to_vec();
    (sk.to_bytes().to_vec(), pk)
}

/// Relies on k256's ecdsa::SigningKey::from_slice and sign_prehash
/// (RFC 6979): signing a 32-byte prehash with a valid key is deterministic
/// in the secret key bytes and the root, and the 64-byte signature verifies
/// under the signer's public key. sign_prehash rejects only the r = 0 or
/// s = 0 outcomes, which no secp256k1 input reachable here produces.
#[verifier::external_body]
pub(crate) fn ecdsa_sign(sk: &Vec<u8>, root: &Vec<u8>) -> (r: Vec<u8>)
    requires
        ecdsa_sk_wf(sk@),
        root@.len() == 32,
    ensures
        r@.len() == 64,
        r@ == ecdsa_signature_of(sk@, root@),
        ecdsa_verifies(ecdsa_pubkey_of(sk@), root@, r@),
{
    let key = k256::ecdsa::SigningKey::from_slice(sk.as_slice()).unwrap();
    let sig: k256::ecdsa::Signature = key.sign_prehash(root.as_slice()).unwrap();
    sig.to_bytes().to_vec()
}

/// Relies on k256's ecdsa::VerifyingKey::from_sec1_bytes,
/// Signature::from_slice and verify_prehash: acceptance is a function of
/// the three byte strings alone, and undecodable keys or signatures are
/// rejected.
#[verifier::external_body]
pub(crate) fn ecdsa_verify(pk: &Vec<u8>, root: &Vec<u8>, sig: &Vec<u8>) -> (r: bool)
    ensures
        r == ecdsa_verifies(pk@, root@, sig@),
{
    let key = match k256::ecdsa::VerifyingKey::from_sec1_bytes(pk.as_slice()) {
        Ok(k) => k,
        Err(_) => return false,
    };
    let sg = match k256::ecdsa::Signature::from_slice(sig.as_slice()) {
        Ok(s) => s,
        Err(_) => return false,
    };
    key.verify_prehash(root.as_slice(), &sg).is_ok()
}

} // verus!
