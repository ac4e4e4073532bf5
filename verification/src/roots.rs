//! Chains, domain separation and signing roots. A chain fixes a fork
//! version; the builder domain mixes the fork data root into a fixed
//! four-byte domain type, and every signed root is the merkle root of an
//! object root concatenated with that domain.

use vstd::prelude::*;
use crate::bytes::{concat_bytes, pad_with_zeros, prefix_bytes, zero_bytes};
use crate::crypto::{merkle_root, merkle_root_of};

verus! {

/// The target network; determines the domain value mixed into every
/// signing root.
#[derive(Clone, Copy, PartialEq, Eq, Structural, Debug)]
pub enum Chain {
    Mainnet,
    Holesky,
    Sepolia,
}

impl Chain {
    /// The chain's four-byte genesis fork version.
    pub open spec fn spec_fork_version(self) -> Seq<u8> {
        match self {
            Chain::Mainnet => seq![0u8, 0u8, 0u8, 0u8],
            Chain::Holesky => seq![1u8, 1u8, 0x70u8, 0u8],
            Chain::Sepolia => seq![0x90u8, 0u8, 0u8, 0x69u8],
        }
    }

    pub fn fork_version(self) -> (r: Vec<u8>)
        ensures
            r@ == self.spec_fork_version(),
            r@.len() == 4,
    {
        let mut r: Vec<u8> = Vec::new();
        match self {
            Chain::Mainnet => {
                r.push(0u8);
                r.push(0u8);
                r.push(0u8);
                r.push(0u8);
            },
            Chain::Holesky => {
                r.push(1u8);
                r.push(1u8);
                r.push(0x70u8);
                r.push(0u8);
            },
            Chain::Sepolia => {
                r.push(0x90u8);
                r.push(0u8);
                r.push(0u8);
                r.push(0x69u8);
            },
        }
        assert(r@ =~= self.spec_fork_version());
        r
    }

    /// The domain under which builder-style messages (delegations included)
    /// are signed on this chain.
    pub open spec fn spec_builder_domain(self) -> Seq<u8> {
        seq![0u8, 0u8, 0u8, 1u8] + spec_fork_data_root(self).subrange(0, 28)
    }

    pub fn builder_domain(self) -> (r: Vec<u8>)
        ensures
            r@ == self.spec_builder_domain(),
            r@.len() == 32,
    {
        let fv = self.fork_version();
        let padded = pad_with_zeros(&fv, 64);
        let fdr = merkle_root(&padded);
        let head = prefix_bytes(&fdr, 28);
        let mut tag: Vec<u8> = Vec::new();
        tag.push(0u8);
        tag.push(0u8);
        tag.push(0u8);
        tag.push(1u8);
        let r = concat_bytes(&tag, &head);
        assert(padded@ =~= self.spec_fork_version() + zero_bytes(60));
        assert(r@ =~= self.spec_builder_domain());
        r
    }
}

/// The merkle root of the chain's fork data: the fork version padded to a
/// 32-byte chunk, followed by an all-zero genesis validators root.
pub open spec fn spec_fork_data_root(c: Chain) -> Seq<u8> {
    merkle_root_of(c.spec_fork_version() + zero_bytes(60))
}

/// The final signing root: the merkle root of the object root concatenated
/// with the domain.
pub open spec fn spec_signing_root(object_root: Seq<u8>, domain: Seq<u8>) -> Seq<u8> {
    merkle_root_of(object_root + domain)
}

/// The signing root an object root gets on a chain, under the builder
/// domain.
pub open spec fn spec_chain_signing_root(c: Chain, object_root: Seq<u8>) -> Seq<u8> {
    spec_signing_root(object_root, c.spec_builder_domain())
}

/// Derive the final signing root from an object root and a domain, exactly
/// as validation does.
pub fn compute_signing_root(object_root: &Vec<u8>, domain: &Vec<u8>) -> (r: Vec<u8>)
    ensures
        r@ == spec_signing_root(object_root@, domain@),
        r@.len() == 32,
{
    let joined = concat_bytes(object_root, domain);
    merkle_root(&joined)
}

/// The signing root for an object root on a chain.
pub fn chain_signing_root(c: Chain, object_root: &Vec<u8>) -> (r: Vec<u8>)
    ensures
        r@ == spec_chain_signing_root(c, object_root@),
        r@.len() == 32,
{
    let domain = c.builder_domain();
    compute_signing_root(object_root, &domain)
}

} // verus!
