//! The delegation certificate: the statement binding a proxy public key to
//! a consensus key, its canonical merkleized root, and the standalone
//! validation of a signed delegation.

use vstd::prelude::*;
use crate::bytes::{concat_bytes, zero_bytes};
use crate::crypto::{bls_unique_sig, bls_verifies, merkle_root, merkle_root_of};
use crate::keys::{BlsPublicKey, BlsSignature, GenericPubkey, KeyTag};
use crate::roots::{chain_signing_root, spec_chain_signing_root, Chain};

verus! {

/// The unsigned delegation statement: a consensus key vouches for a proxy
/// key.
pub struct ProxyDelegation {
    pub delegator: BlsPublicKey,
    pub proxy: GenericPubkey,
}

/// Mathematical model of a delegation statement.
pub struct DelegationView {
    pub delegator: Seq<u8>,
    pub proxy: (KeyTag, Seq<u8>),
}

impl View for ProxyDelegation {
    type V = DelegationView;

    open spec fn view(&self) -> DelegationView {
        DelegationView { delegator: self.delegator@, proxy: self.proxy@ }
    }
}

/// The single-byte scheme selector, padded to a 32-byte chunk.
pub open spec fn spec_tag_chunk(t: KeyTag) -> Seq<u8> {
    seq![spec_tag_byte(t)] + zero_bytes(31)
}

pub open spec fn spec_tag_byte(t: KeyTag) -> u8 {
    match t {
        KeyTag::Bls => 0u8,
        KeyTag::Ecdsa => 1u8,
    }
}

/// The canonical root of a generic public key: the merkle root of its raw
/// bytes with the scheme selector chunk mixed in.
pub open spec fn spec_generic_pubkey_root(p: (KeyTag, Seq<u8>)) -> Seq<u8> {
    merkle_root_of(merkle_root_of(p.1) + spec_tag_chunk(p.0))
}

/// The canonical merkleized root of a delegation statement: the merkle root
/// of its two field roots.
pub open spec fn spec_delegation_root(d: DelegationView) -> Seq<u8> {
    merkle_root_of(merkle_root_of(d.delegator) + spec_generic_pubkey_root(d.proxy))
}

/// The root a delegation statement is signed over on a chain.
pub open spec fn spec_delegation_signing_root(c: Chain, d: DelegationView) -> Seq<u8> {
    spec_chain_signing_root(c, spec_delegation_root(d))
}

impl ProxyDelegation {
    /// The canonical merkleized root of this statement.
    pub fn tree_hash_root(&self) -> (r: Vec<u8>)
        ensures
            r@ == spec_delegation_root(self@),
            r@.len() == 32,
    {
        let delegator_root = merkle_root(&self.delegator.bytes);
        let raw_root = merkle_root(self.proxy.raw_bytes());
        let mut tag_chunk: Vec<u8> = Vec::new();
        let t = self.proxy.tag();
        match t {
            KeyTag::Bls => tag_chunk.push(0u8),
            KeyTag::Ecdsa => tag_chunk.push(1u8),
        }
        let mut i: usize = 0;
        while i < 31
            invariant
                i <= 31,
                tag_chunk@.len() == i + 1,
                tag_chunk@[0] == spec_tag_byte(self@.proxy.0),
                forall|j: int| 1 <= j < tag_chunk@.len() ==> tag_chunk@[j] == 0u8,
            decreases 31 - i,
        {
            tag_chunk.push(0u8);
            i += 1;
        }
        assert(tag_chunk@ =~= spec_tag_chunk(self@.proxy.0));
        let proxy_chunks = concat_bytes(&raw_root, &tag_chunk);
        let proxy_root = merkle_root(&proxy_chunks);
        let joined = concat_bytes(&delegator_root, &proxy_root);
        merkle_root(&joined)
    }

    /// The root this statement is signed over on a chain.
    pub fn signing_root(&self, chain: Chain) -> (r: Vec<u8>)
        ensures
            r@ == spec_delegation_signing_root(chain, self@),
            r@.len() == 32,
    {
        let root = self.tree_hash_root();
        chain_signing_root(chain, &root)
    }

    pub fn duplicate(&self) -> (r: Self)
        ensures
            r@ == self@,
    {
        ProxyDelegation { delegator: self.delegator.duplicate(), proxy: self.proxy.duplicate() }
    }
}

/// The failure reported when a signed delegation does not check out.
#[derive(Clone, Copy, PartialEq, Eq, Structural, Debug)]
pub enum VerificationError {
    InvalidSignature,
}

/// A delegation statement together with the consensus signature over its
/// signing root; independently verifiable given only the chain.
pub struct SignedProxyDelegation {
    pub message: ProxyDelegation,
    pub signature: BlsSignature,
}

/// Mathematical model of a signed delegation.
pub struct SignedDelegationView {
    pub message: DelegationView,
    pub signature: Seq<u8>,
}

impl View for SignedProxyDelegation {
    type V = SignedDelegationView;

    open spec fn view(&self) -> SignedDelegationView {
        SignedDelegationView { message: self.message@, signature: self.signature@ }
    }
}

/// The signed delegation is accepted on the chain: its signature verifies
/// under its delegator key and its own signing root.
pub open spec fn spec_delegation_valid(c: Chain, sd: SignedDelegationView) -> bool {
    bls_verifies(sd.message.delegator, spec_delegation_signing_root(c, sd.message), sd.signature)
}

impl SignedProxyDelegation {
    /// Recompute the signing root and verify the signature against the
    /// delegator key, exactly as it was produced.
    pub fn validate(&self, chain: Chain) -> (r: Result<(), VerificationError>)
        ensures
            r is Ok <==> spec_delegation_valid(chain, self@),
            r is Err ==> r == Err::<(), VerificationError>(VerificationError::InvalidSignature),
    {
        let root = self.message.signing_root(chain);
        if crate::crypto::bls_verify(&self.message.delegator.bytes, &root, &self.signature.bytes) {
            Ok(())
        } else {
            Err(VerificationError::InvalidSignature)
        }
    }

    pub fn duplicate(&self) -> (r: Self)
        ensures
            r@ == self@,
    {
        SignedProxyDelegation {
            message: self.message.duplicate(),
            signature: self.signature.duplicate(),
        }
    }
}

impl GenericPubkey {
    /// Verify a raw signature of this key's scheme against a precomputed
    /// signing root.
    pub fn verify_signature(&self, signing_root: &Vec<u8>, sig: &Vec<u8>) -> (r: Result<
        (),
        VerificationError,
    >)
        ensures
            r is Ok <==> match self@.0 {
                KeyTag::Bls => bls_verifies(self@.1, signing_root@, sig@),
                KeyTag::Ecdsa => crate::crypto::ecdsa_verifies(self@.1, signing_root@, sig@),
            },
            r is Err ==> r == Err::<(), VerificationError>(VerificationError::InvalidSignature),
    {
        let ok = match self {
            GenericPubkey::Bls(pk) => crate::crypto::bls_verify(&pk.bytes, signing_root, sig),
            GenericPubkey::Ecdsa(pk) => crate::crypto::ecdsa_verify(&pk.bytes, signing_root, sig),
        };
        if ok {
            Ok(())
        } else {
            Err(VerificationError::InvalidSignature)
        }
    }
}

/// Of all 96-byte strings, only the delegation's own signature is accepted
/// for its message and chain.
pub open spec fn spec_delegation_sig_unique(c: Chain, sd: SignedDelegationView) -> bool {
    bls_unique_sig(sd.message.delegator, spec_delegation_signing_root(c, sd.message), sd.signature)
}

/// Changing any single byte of the signature of a delegation whose
/// signature is the unique accepted one makes validation fail.
pub proof fn lemma_tampered_signature_rejected(
    c: Chain,
    sd: SignedDelegationView,
    tampered: SignedDelegationView,
    i: int,
)
    requires
        spec_delegation_sig_unique(c, sd),
        tampered.message == sd.message,
        tampered.signature.len() == 96,
        sd.signature.len() == 96,
        0 <= i < 96,
        tampered.signature[i] != sd.signature[i],
    ensures
        !spec_delegation_valid(c, tampered),
{
    crate::bytes::lemma_byte_change_differs(tampered.signature, sd.signature, i);
}

} // verus!
