//! Keypair owners, one per scheme. A signer holds the secret key bytes and
//! the derived public key; a type invariant ties the two together, so every
//! signature a signer produces verifies under its own public key.

use vstd::prelude::*;
use crate::crypto::{
    bls_generate_keypair, bls_pubkey_of, bls_sign, bls_signature_of, bls_sk_wf, bls_unique_sig,
    bls_verifies, ecdsa_generate_keypair, ecdsa_pubkey_of, ecdsa_sign, ecdsa_signature_of,
    ecdsa_sk_wf, ecdsa_verifies,
};
use crate::bytes::copy_bytes;
use crate::keys::{BlsPublicKey, BlsSignature, EcdsaPublicKey, EcdsaSignature};
use crate::roots::{chain_signing_root, spec_chain_signing_root, Chain};

verus! {

/// Mathematical model of a signer: its secret and public key bytes.
pub struct SignerView {
    pub secret: Seq<u8>,
    pub pubkey: Seq<u8>,
}

/// A BLS signer is well formed when its public key is the one derived from
/// its valid secret key.
pub open spec fn bls_signer_wf(v: SignerView) -> bool {
    &&& v.secret.len() == 32
    &&& bls_sk_wf(v.secret)
    &&& v.pubkey == bls_pubkey_of(v.secret)
    &&& v.pubkey.len() == 48
}

/// An ECDSA signer is well formed under the same conditions for its scheme.
pub open spec fn ecdsa_signer_wf(v: SignerView) -> bool {
    &&& v.secret.len() == 32
    &&& ecdsa_sk_wf(v.secret)
    &&& v.pubkey == ecdsa_pubkey_of(v.secret)
    &&& v.pubkey.len() == 33
}

/// Owner of one BLS keypair; consensus signers and BLS proxy keypairs are
/// both instances of this.
pub struct Signer {
    secret: Vec<u8>,
    pubkey: Vec<u8>,
}

impl View for Signer {
    type V = SignerView;

    closed spec fn view(&self) -> SignerView {
        SignerView { secret: self.secret@, pubkey: self.pubkey@ }
    }
}

impl Signer {
    #[verifier::type_invariant]
    pub open spec fn inv(self) -> bool {
        bls_signer_wf(self@)
    }

    /// A signer over a freshly generated random keypair.
    pub fn new_random() -> (s: Self)
        ensures
            bls_signer_wf(s@),
    {
        let (sk, pk) = bls_generate_keypair();
        Signer { secret: sk, pubkey: pk }
    }

    /// The signer's public key.
    pub fn pubkey(&self) -> (r: BlsPublicKey)
        ensures
            r@ == self@.pubkey,
    {
        BlsPublicKey { bytes: copy_bytes(&self.pubkey) }
    }

    /// Sign a 32-byte object root under the chain's builder domain. The
    /// signature is the unique one accepted for this signer's key and root.
    pub fn sign(&self, chain: Chain, object_root: &Vec<u8>) -> (r: BlsSignature)
        ensures
            r@ == bls_signature_of(self@.secret, spec_chain_signing_root(chain, object_root@)),
            r@.len() == 96,
            bls_verifies(self@.pubkey, spec_chain_signing_root(chain, object_root@), r@),
            bls_unique_sig(self@.pubkey, spec_chain_signing_root(chain, object_root@), r@),
    {
        proof {
            use_type_invariant(self);
        }
        let root = chain_signing_root(chain, object_root);
        BlsSignature { bytes: bls_sign(&self.secret, &root) }
    }

    pub fn duplicate(&self) -> (r: Self)
        ensures
            r@ == self@,
    {
        proof {
            use_type_invariant(self);
        }
        Signer { secret: copy_bytes(&self.secret), pubkey: copy_bytes(&self.pubkey) }
    }
}

/// Owner of one secp256k1 ECDSA keypair, backing ECDSA proxy keys.
pub struct EcdsaSigner {
    secret: Vec<u8>,
    pubkey: Vec<u8>,
}

impl View for EcdsaSigner {
    type V = SignerView;

    closed spec fn view(&self) -> SignerView {
        SignerView { secret: self.secret@, pubkey: self.pubkey@ }
    }
}

impl EcdsaSigner {
    #[verifier::type_invariant]
    pub open spec fn inv(self) -> bool {
        ecdsa_signer_wf(self@)
    }

    /// A signer over a freshly generated random keypair.
    pub fn new_random() -> (s: Self)
        ensures
            ecdsa_signer_wf(s@),
    {
        let (sk, pk) = ecdsa_generate_keypair();
        EcdsaSigner { secret: sk, pubkey: pk }
    }

    /// The signer's public key.
    pub fn pubkey(&self) -> (r: EcdsaPublicKey)
        ensures
            r@ == self@.pubkey,
    {
        EcdsaPublicKey { bytes: copy_bytes(&self.pubkey) }
    }

    /// Sign a 32-byte object root under the chain's builder domain.
    pub fn sign(&self, chain: Chain, object_root: &Vec<u8>) -> (r: EcdsaSignature)
        ensures
            r@ == ecdsa_signature_of(self@.secret, spec_chain_signing_root(chain, object_root@)),
            r@.len() == 64,
            ecdsa_verifies(self@.pubkey, spec_chain_signing_root(chain, object_root@), r@),
    {
        proof {
            use_type_invariant(self);
        }
        let root = chain_signing_root(chain, object_root);
        EcdsaSignature { bytes: ecdsa_sign(&self.secret, &root) }
    }

    pub fn duplicate(&self) -> (r: Self)
        ensures
            r@ == self@,
    {
        proof {
            use_type_invariant(self);
        }
        EcdsaSigner { secret: copy_bytes(&self.secret), pubkey: copy_bytes(&self.pubkey) }
    }
}

} // verus!
