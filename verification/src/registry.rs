//! Proxy signers and the per-scheme registry. A proxy signer pairs a
//! keypair with the delegation certificate that authorized it; the
//! registry keeps one mapping per scheme, with unique public keys, and
//! offers scheme-tagged lookup as well as raw-byte search.

use vstd::prelude::*;
use crate::bytes::{bytes_eq, copy_bytes};
use crate::crypto::{
    bls_signature_of, bls_unique_sig, bls_verifies, ecdsa_signature_of, ecdsa_verifies,
};
use crate::delegation::{SignedDelegationView, SignedProxyDelegation};
use crate::keys::{BlsPublicKey, EcdsaPublicKey, GenericPubkey, KeyTag};
use crate::roots::{spec_chain_signing_root, Chain};
use crate::signer::{bls_signer_wf, ecdsa_signer_wf, EcdsaSigner, Signer, SignerView};

verus! {

/// Mathematical model of a proxy signer: its keypair and its certificate.
pub struct ProxySignerView {
    pub signer: SignerView,
    pub delegation: SignedDelegationView,
}

/// A BLS proxy signer is well formed when its keypair is and its
/// certificate names its own public key as the proxy.
pub open spec fn bls_proxy_wf(v: ProxySignerView) -> bool {
    &&& bls_signer_wf(v.signer)
    &&& v.delegation.message.proxy == (KeyTag::Bls, v.signer.pubkey)
}

/// The ECDSA analogue of `bls_proxy_wf`.
pub open spec fn ecdsa_proxy_wf(v: ProxySignerView) -> bool {
    &&& ecdsa_signer_wf(v.signer)
    &&& v.delegation.message.proxy == (KeyTag::Ecdsa, v.signer.pubkey)
}

/// A BLS proxy keypair bound to its delegation certificate.
pub struct BlsProxySigner {
    signer: Signer,
    delegation: SignedProxyDelegation,
}

impl View for BlsProxySigner {
    type V = ProxySignerView;

    closed spec fn view(&self) -> ProxySignerView {
        ProxySignerView { signer: self.signer@, delegation: self.delegation@ }
    }
}

impl BlsProxySigner {
    #[verifier::type_invariant]
    pub open spec fn inv(self) -> bool {
        bls_proxy_wf(self@)
    }

    /// Bind a keypair to the certificate that authorized it.
    pub fn new(signer: Signer, delegation: SignedProxyDelegation) -> (r: Self)
        requires
            delegation@.message.proxy == (KeyTag::Bls, signer@.pubkey),
        ensures
            r@ == (ProxySignerView { signer: signer@, delegation: delegation@ }),
    {
        proof {
            use_type_invariant(&signer);
        }
        BlsProxySigner { signer, delegation }
    }

    /// The proxy's own public key.
    pub fn pubkey(&self) -> (r: BlsPublicKey)
        ensures
            r@ == self@.signer.pubkey,
    {
        self.signer.pubkey()
    }

    /// The stored delegation certificate.
    pub fn delegation(&self) -> (r: SignedProxyDelegation)
        ensures
            r@ == self@.delegation,
    {
        self.delegation.duplicate()
    }

    pub fn duplicate(&self) -> (r: Self)
        ensures
            r@ == self@,
    {
        proof {
            use_type_invariant(self);
        }
        BlsProxySigner {
            signer: self.signer.duplicate(),
            delegation: self.delegation.duplicate(),
        }
    }

    /// Sign a 32-byte object root with the proxy keypair.
    pub fn sign(&self, chain: Chain, object_root: &Vec<u8>) -> (r: Vec<u8>)
        ensures
            r@ == bls_signature_of(self@.signer.secret, spec_chain_signing_root(chain, object_root@)),
            bls_verifies(self@.signer.pubkey, spec_chain_signing_root(chain, object_root@), r@),
            bls_unique_sig(self@.signer.pubkey, spec_chain_signing_root(chain, object_root@), r@),
    {
        let sig = self.signer.sign(chain, object_root);
        sig.bytes
    }
}

/// An ECDSA proxy keypair bound to its delegation certificate.
pub struct EcdsaProxySigner {
    signer: EcdsaSigner,
    delegation: SignedProxyDelegation,
}

impl View for EcdsaProxySigner {
    type V = ProxySignerView;

    closed spec fn view(&self) -> ProxySignerView {
        ProxySignerView { signer: self.signer@, delegation: self.delegation@ }
    }
}

impl EcdsaProxySigner {
    #[verifier::type_invariant]
    pub open spec fn inv(self) -> bool {
        ecdsa_proxy_wf(self@)
    }

    /// Bind a keypair to the certificate that authorized it.
    pub fn new(signer: EcdsaSigner, delegation: SignedProxyDelegation) -> (r: Self)
        requires
            delegation@.message.proxy == (KeyTag::Ecdsa, signer@.pubkey),
        ensures
            r@ == (ProxySignerView { signer: signer@, delegation: delegation@ }),
    {
        proof {
            use_type_invariant(&signer);
        }
        EcdsaProxySigner { signer, delegation }
    }

    /// The proxy's own public key.
    pub fn pubkey(&self) -> (r: EcdsaPublicKey)
        ensures
            r@ == self@.signer.pubkey,
    {
        self.signer.pubkey()
    }

    /// The stored delegation certificate.
    pub fn delegation(&self) -> (r: SignedProxyDelegation)
        ensures
            r@ == self@.delegation,
    {
        self.delegation.duplicate()
    }

    pub fn duplicate(&self) -> (r: Self)
        ensures
            r@ == self@,
    {
        proof {
            use_type_invariant(self);
        }
        EcdsaProxySigner {
            signer: self.signer.duplicate(),
            delegation: self.delegation.duplicate(),
        }
    }

    /// Sign a 32-byte object root with the proxy keypair.
    pub fn sign(&self, chain: Chain, object_root: &Vec<u8>) -> (r: Vec<u8>)
        ensures
            r@ == ecdsa_signature_of(self@.signer.secret, spec_chain_signing_root(chain, object_root@)),
            ecdsa_verifies(self@.signer.pubkey, spec_chain_signing_root(chain, object_root@), r@),
    {
        let sig = self.signer.sign(chain, object_root);
        sig.bytes
    }
}

/// A proxy signer of either scheme.
pub enum GenericProxySigner {
    Bls(BlsProxySigner),
    Ecdsa(EcdsaProxySigner),
}

/// Model of a generic proxy signer: the scheme tag and the signer model.
pub struct GenericProxySignerView {
    pub tag: KeyTag,
    pub proxy: ProxySignerView,
}

impl View for GenericProxySigner {
    type V = GenericProxySignerView;

    open spec fn view(&self) -> GenericProxySignerView {
        match self {
            GenericProxySigner::Bls(p) => GenericProxySignerView { tag: KeyTag::Bls, proxy: p@ },
            GenericProxySigner::Ecdsa(p) => GenericProxySignerView {
                tag: KeyTag::Ecdsa,
                proxy: p@,
            },
        }
    }
}

impl GenericProxySigner {
    /// The proxy's public key, in generic form.
    pub fn pubkey(&self) -> (r: GenericPubkey)
        ensures
            r@ == (self@.tag, self@.proxy.signer.pubkey),
    {
        match self {
            GenericProxySigner::Bls(p) => GenericPubkey::Bls(p.pubkey()),
            GenericProxySigner::Ecdsa(p) => GenericPubkey::Ecdsa(p.pubkey()),
        }
    }

    /// The stored delegation certificate.
    pub fn delegation(&self) -> (r: SignedProxyDelegation)
        ensures
            r@ == self@.proxy.delegation,
    {
        match self {
            GenericProxySigner::Bls(p) => p.delegation(),
            GenericProxySigner::Ecdsa(p) => p.delegation(),
        }
    }

    pub fn duplicate(&self) -> (r: Self)
        ensures
            r@ == self@,
    {
        match self {
            GenericProxySigner::Bls(p) => GenericProxySigner::Bls(p.duplicate()),
            GenericProxySigner::Ecdsa(p) => GenericProxySigner::Ecdsa(p.duplicate()),
        }
    }

    /// Sign a 32-byte object root with the proxy keypair of whichever
    /// scheme this is, returning the raw signature bytes.
    pub fn sign(&self, chain: Chain, object_root: &Vec<u8>) -> (r: Vec<u8>)
        ensures
            self@.tag == KeyTag::Bls ==> {
                &&& r@ == bls_signature_of(
                    self@.proxy.signer.secret,
                    spec_chain_signing_root(chain, object_root@),
                )
                &&& bls_verifies(
                    self@.proxy.signer.pubkey,
                    spec_chain_signing_root(chain, object_root@),
                    r@,
                )
                &&& bls_unique_sig(
                    self@.proxy.signer.pubkey,
                    spec_chain_signing_root(chain, object_root@),
                    r@,
                )
            },
            self@.tag == KeyTag::Ecdsa ==> {
                &&& r@ == ecdsa_signature_of(
                    self@.proxy.signer.secret,
                    spec_chain_signing_root(chain, object_root@),
                )
                &&& ecdsa_verifies(
                    self@.proxy.signer.pubkey,
                    spec_chain_signing_root(chain, object_root@),
                    r@,
                )
            },
    {
        match self {
            GenericProxySigner::Bls(p) => p.sign(chain, object_root),
            GenericProxySigner::Ecdsa(p) => p.sign(chain, object_root),
        }
    }
}

/// Mathematical model of the registry: one sequence of proxy models per
/// scheme, keys unique within each.
pub struct RegistryView {
    pub bls: Seq<ProxySignerView>,
    pub ecdsa: Seq<ProxySignerView>,
}

pub open spec fn bls_has(v: RegistryView, pk: Seq<u8>) -> bool {
    exists|i: int| 0 <= i < v.bls.len() && v.bls[i].signer.pubkey == pk
}

pub open spec fn bls_index_of(v: RegistryView, pk: Seq<u8>) -> int {
    choose|i: int| 0 <= i < v.bls.len() && v.bls[i].signer.pubkey == pk
}

pub open spec fn bls_at(v: RegistryView, pk: Seq<u8>) -> ProxySignerView {
    v.bls[bls_index_of(v, pk)]
}

pub open spec fn ecdsa_has(v: RegistryView, pk: Seq<u8>) -> bool {
    exists|i: int| 0 <= i < v.ecdsa.len() && v.ecdsa[i].signer.pubkey == pk
}

pub open spec fn ecdsa_index_of(v: RegistryView, pk: Seq<u8>) -> int {
    choose|i: int| 0 <= i < v.ecdsa.len() && v.ecdsa[i].signer.pubkey == pk
}

pub open spec fn ecdsa_at(v: RegistryView, pk: Seq<u8>) -> ProxySignerView {
    v.ecdsa[ecdsa_index_of(v, pk)]
}

/// Some registered proxy, of either scheme, has these raw public key
/// bytes.
pub open spec fn registry_has_raw(v: RegistryView, pk: Seq<u8>) -> bool {
    bls_has(v, pk) || ecdsa_has(v, pk)
}

/// Public keys are unique within each scheme's mapping.
pub open spec fn registry_wf(v: RegistryView) -> bool {
    &&& forall|i: int, j: int|
        0 <= i < j < v.bls.len() ==> v.bls[i].signer.pubkey != v.bls[j].signer.pubkey
    &&& forall|i: int, j: int|
        0 <= i < j < v.ecdsa.len() ==> v.ecdsa[i].signer.pubkey != v.ecdsa[j].signer.pubkey
}

/// What a scheme-tagged lookup returns: the unique entry of the matching
/// scheme's map, or nothing. The other scheme's map plays no part.
pub open spec fn spec_get(v: RegistryView, key: (KeyTag, Seq<u8>)) -> Option<
    GenericProxySignerView,
> {
    match key.0 {
        KeyTag::Bls => if bls_has(v, key.1) {
            Some(GenericProxySignerView { tag: KeyTag::Bls, proxy: bls_at(v, key.1) })
        } else {
            None
        },
        KeyTag::Ecdsa => if ecdsa_has(v, key.1) {
            Some(GenericProxySignerView { tag: KeyTag::Ecdsa, proxy: ecdsa_at(v, key.1) })
        } else {
            None
        },
    }
}

/// The registry after `add` of a BLS proxy: overwrite the entry with the
/// same public key, or append.
pub open spec fn spec_add_bls(v: RegistryView, p: ProxySignerView) -> RegistryView {
    if bls_has(v, p.signer.pubkey) {
        RegistryView { bls: v.bls.update(bls_index_of(v, p.signer.pubkey), p), ecdsa: v.ecdsa }
    } else {
        RegistryView { bls: v.bls.push(p), ecdsa: v.ecdsa }
    }
}

/// The registry after `add` of an ECDSA proxy.
pub open spec fn spec_add_ecdsa(v: RegistryView, p: ProxySignerView) -> RegistryView {
    if ecdsa_has(v, p.signer.pubkey) {
        RegistryView {
            bls: v.bls,
            ecdsa: v.ecdsa.update(ecdsa_index_of(v, p.signer.pubkey), p),
        }
    } else {
        RegistryView { bls: v.bls, ecdsa: v.ecdsa.push(p) }
    }
}

/// Per-scheme mappings from public key to live proxy signer.
pub struct ProxySigners {
    bls_signers: Vec<BlsProxySigner>,
    ecdsa_signers: Vec<EcdsaProxySigner>,
}

impl View for ProxySigners {
    type V = RegistryView;

    closed spec fn view(&self) -> RegistryView {
        RegistryView {
            bls: self.bls_signers@.map_values(|p: BlsProxySigner| p@),
            ecdsa: self.ecdsa_signers@.map_values(|p: EcdsaProxySigner| p@),
        }
    }
}

impl ProxySigners {
    /// An empty registry.
    pub fn new() -> (r: Self)
        ensures
            r@.bls.len() == 0,
            r@.ecdsa.len() == 0,
            registry_wf(r@),
    {
        ProxySigners { bls_signers: Vec::new(), ecdsa_signers: Vec::new() }
    }

    /// Look up the proxy signer stored under a key, in the map of the
    /// key's own scheme only; the returned clone signs independently.
    pub fn get(&self, key: &GenericPubkey) -> (r: Option<GenericProxySigner>)
        requires
            registry_wf(self@),
        ensures
            (r is Some) == (spec_get(self@, key@) is Some),
            r matches Some(g) ==> Some(g@) == spec_get(self@, key@),
    {
        match key {
            GenericPubkey::Bls(pk) => {
                let mut i: usize = 0;
                while i < self.bls_signers.len()
                    invariant
                        i <= self.bls_signers@.len(),
                        self@.bls.len() == self.bls_signers@.len(),
                        forall|j: int|
                            0 <= j < i ==> self@.bls[j].signer.pubkey != pk@,
                        forall|j: int|
                            0 <= j < self@.bls.len() ==> self@.bls[j] == self.bls_signers@[j]@,
                        registry_wf(self@),
                        key@ == (KeyTag::Bls, pk@),
                    decreases self.bls_signers@.len() - i,
                {
                    let cand = &self.bls_signers[i];
                    let cpk = cand.pubkey();
                    if bytes_eq(&cpk.bytes, &pk.bytes) {
                        assert(self@.bls[i as int].signer.pubkey == key@.1);
                        assert(bls_has(self@, key@.1));
                        assert(bls_at(self@, key@.1) == self@.bls[i as int]);
                        return Some(GenericProxySigner::Bls(cand.duplicate()));
                    }
                    i += 1;
                }
                assert(!bls_has(self@, key@.1));
                None
            },
            GenericPubkey::Ecdsa(pk) => {
                let mut i: usize = 0;
                while i < self.ecdsa_signers.len()
                    invariant
                        i <= self.ecdsa_signers@.len(),
                        self@.ecdsa.len() == self.ecdsa_signers@.len(),
                        forall|j: int|
                            0 <= j < i ==> self@.ecdsa[j].signer.pubkey != pk@,
                        forall|j: int|
                            0 <= j < self@.ecdsa.len() ==> self@.ecdsa[j]
                                == self.ecdsa_signers@[j]@,
                        registry_wf(self@),
                        key@ == (KeyTag::Ecdsa, pk@),
                    decreases self.ecdsa_signers@.len() - i,
                {
                    let cand = &self.ecdsa_signers[i];
                    let cpk = cand.pubkey();
                    if bytes_eq(&cpk.bytes, &pk.bytes) {
                        assert(self@.ecdsa[i as int].signer.pubkey == key@.1);
                        assert(ecdsa_has(self@, key@.1));
                        assert(ecdsa_at(self@, key@.1) == self@.ecdsa[i as int]);
                        return Some(GenericProxySigner::Ecdsa(cand.duplicate()));
                    }
                    i += 1;
                }
                assert(!ecdsa_has(self@, key@.1));
                None
            },
        }
    }

    /// Insert a proxy signer, keyed by its own public key; an entry with
    /// the same key is overwritten silently.
    pub fn add(&mut self, proxy: GenericProxySigner)
        requires
            registry_wf(old(self)@),
        ensures
            registry_wf(final(self)@),
            proxy@.tag == KeyTag::Bls ==> final(self)@ == spec_add_bls(
                old(self)@,
                proxy@.proxy,
            ),
            proxy@.tag == KeyTag::Ecdsa ==> final(self)@ == spec_add_ecdsa(
                old(self)@,
                proxy@.proxy,
            ),
    {
        match proxy {
            GenericProxySigner::Bls(p) => {
                let pk = p.pubkey();
                let ghost v0 = self@;
                let mut i: usize = 0;
                let mut found: bool = false;
                let mut at: usize = 0;
                while i < self.bls_signers.len()
                    invariant
                        i <= self.bls_signers@.len(),
                        self@ == v0,
                        self@.bls.len() == self.bls_signers@.len(),
                        pk@ == p@.signer.pubkey,
                        found ==> at < i && self@.bls[at as int].signer.pubkey == pk@,
                        !found ==> forall|j: int|
                            0 <= j < i ==> self@.bls[j].signer.pubkey != pk@,
                        registry_wf(self@),
                    decreases self.bls_signers@.len() - i,
                {
                    if !found {
                        let cand = &self.bls_signers[i];
                        let cpk = cand.pubkey();
                        if bytes_eq(&cpk.bytes, &pk.bytes) {
                            found = true;
                            at = i;
                        }
                    }
                    i += 1;
                }
                if found {
                    assert(bls_has(v0, p@.signer.pubkey));
                    assert(bls_index_of(v0, p@.signer.pubkey) == at as int);
                    let _prev = self.bls_signers.remove(at);
                    self.bls_signers.insert(at, p);
                    proof {
                        assert(self@.bls =~= v0.bls.update(at as int, p@));
                        assert(self@ =~= spec_add_bls(v0, p@));
                    }
                } else {
                    assert(!bls_has(v0, p@.signer.pubkey));
                    self.bls_signers.push(p);
                    proof {
                        assert(self@.bls =~= v0.bls.push(p@));
                        assert(self@ =~= spec_add_bls(v0, p@));
                    }
                }
            },
            GenericProxySigner::Ecdsa(p) => {
                let pk = p.pubkey();
                let ghost v0 = self@;
                let mut i: usize = 0;
                let mut found: bool = false;
                let mut at: usize = 0;
                while i < self.ecdsa_signers.len()
                    invariant
                        i <= self.ecdsa_signers@.len(),
                        self@ == v0,
                        self@.ecdsa.len() == self.ecdsa_signers@.len(),
                        pk@ == p@.signer.pubkey,
                        found ==> at < i && self@.ecdsa[at as int].signer.pubkey == pk@,
                        !found ==> forall|j: int|
                            0 <= j < i ==> self@.ecdsa[j].signer.pubkey != pk@,
                        registry_wf(self@),
                    decreases self.ecdsa_signers@.len() - i,
                {
                    if !found {
                        let cand = &self.ecdsa_signers[i];
                        let cpk = cand.pubkey();
                        if bytes_eq(&cpk.bytes, &pk.bytes) {
                            found = true;
                            at = i;
                        }
                    }
                    i += 1;
                }
                if found {
                    assert(ecdsa_has(v0, p@.signer.pubkey));
                    assert(ecdsa_index_of(v0, p@.signer.pubkey) == at as int);
                    let _prev = self.ecdsa_signers.remove(at);
                    self.ecdsa_signers.insert(at, p);
                    proof {
                        assert(self@.ecdsa =~= v0.ecdsa.update(at as int, p@));
                        assert(self@ =~= spec_add_ecdsa(v0, p@));
                    }
                } else {
                    assert(!ecdsa_has(v0, p@.signer.pubkey));
                    self.ecdsa_signers.push(p);
                    proof {
                        assert(self@.ecdsa =~= v0.ecdsa.push(p@));
                        assert(self@ =~= spec_add_ecdsa(v0, p@));
                    }
                }
            },
        }
    }

    /// Scan both scheme maps for a key with these raw bytes, the
    /// pairing-based scheme first.
    pub fn find_pubkey(&self, pubkey: &Vec<u8>) -> (r: Option<GenericPubkey>)
        ensures
            (r is Some) == registry_has_raw(self@, pubkey@),
            r matches Some(g) ==> g@.1 == pubkey@ && ((g@.0 == KeyTag::Bls) == bls_has(
                self@,
                pubkey@,
            )),
    {
        let mut i: usize = 0;
        while i < self.bls_signers.len()
            invariant
                i <= self.bls_signers@.len(),
                self@.bls.len() == self.bls_signers@.len(),
                forall|j: int| 0 <= j < i ==> self@.bls[j].signer.pubkey != pubkey@,
                forall|j: int|
                    0 <= j < self@.bls.len() ==> self@.bls[j] == self.bls_signers@[j]@,
            decreases self.bls_signers@.len() - i,
        {
            let cand = &self.bls_signers[i];
            let cpk = cand.pubkey();
            if bytes_eq(&cpk.bytes, pubkey) {
                assert(self@.bls[i as int].signer.pubkey == pubkey@);
                assert(bls_has(self@, pubkey@));
                return Some(GenericPubkey::Bls(cpk));
            }
            i += 1;
        }
        assert(!bls_has(self@, pubkey@));
        let mut i: usize = 0;
        while i < self.ecdsa_signers.len()
            invariant
                i <= self.ecdsa_signers@.len(),
                self@.ecdsa.len() == self.ecdsa_signers@.len(),
                !bls_has(self@, pubkey@),
                forall|j: int| 0 <= j < i ==> self@.ecdsa[j].signer.pubkey != pubkey@,
                forall|j: int|
                    0 <= j < self@.ecdsa.len() ==> self@.ecdsa[j] == self.ecdsa_signers@[j]@,
            decreases self.ecdsa_signers@.len() - i,
        {
            let cand = &self.ecdsa_signers[i];
            let cpk = cand.pubkey();
            if bytes_eq(&cpk.bytes, pubkey) {
                assert(self@.ecdsa[i as int].signer.pubkey == pubkey@);
                assert(ecdsa_has(self@, pubkey@));
                return Some(GenericPubkey::Ecdsa(cpk));
            }
            i += 1;
        }
        assert(!ecdsa_has(self@, pubkey@));
        None
    }
}

/// `add` of a BLS proxy keeps the registry well formed, registers the new
/// key, loses no registered key, and leaves the other scheme's map alone.
pub proof fn lemma_add_bls_membership(v: RegistryView, p: ProxySignerView)
    requires
        registry_wf(v),
    ensures
        registry_wf(spec_add_bls(v, p)),
        bls_has(spec_add_bls(v, p), p.signer.pubkey),
        forall|pk: Seq<u8>| bls_has(v, pk) ==> bls_has(spec_add_bls(v, p), pk),
        spec_add_bls(v, p).ecdsa == v.ecdsa,
        bls_at(spec_add_bls(v, p), p.signer.pubkey) == p,
{
    let w = spec_add_bls(v, p);
    if bls_has(v, p.signer.pubkey) {
        let i = bls_index_of(v, p.signer.pubkey);
        assert(0 <= i < v.bls.len() && v.bls[i].signer.pubkey == p.signer.pubkey);
        assert(w.bls == v.bls.update(i, p));
        assert forall|pk: Seq<u8>| bls_has(v, pk) implies bls_has(w, pk) by {
            let j = choose|j: int| 0 <= j < v.bls.len() && v.bls[j].signer.pubkey == pk;
            if j == i {
                assert(w.bls[i].signer.pubkey == pk);
            } else {
                assert(w.bls[j].signer.pubkey == pk);
            }
        }
        assert(w.bls[i].signer.pubkey == p.signer.pubkey);
        let k = bls_index_of(w, p.signer.pubkey);
        assert(0 <= k < w.bls.len() && w.bls[k].signer.pubkey == p.signer.pubkey);
        if k != i {
            assert(v.bls[k].signer.pubkey == p.signer.pubkey);
            assert(false);
        }
    } else {
        assert(w.bls == v.bls.push(p));
        assert(w.bls[v.bls.len() as int].signer.pubkey == p.signer.pubkey);
        assert forall|pk: Seq<u8>| bls_has(v, pk) implies bls_has(w, pk) by {
            let j = choose|j: int| 0 <= j < v.bls.len() && v.bls[j].signer.pubkey == pk;
            assert(w.bls[j].signer.pubkey == pk);
        }
        let k = bls_index_of(w, p.signer.pubkey);
        assert(0 <= k < w.bls.len() && w.bls[k].signer.pubkey == p.signer.pubkey);
        if k != v.bls.len() {
            assert(v.bls[k].signer.pubkey == p.signer.pubkey);
            assert(false);
        }
    }
}

/// The ECDSA analogue of `lemma_add_bls_membership`.
pub proof fn lemma_add_ecdsa_membership(v: RegistryView, p: ProxySignerView)
    requires
        registry_wf(v),
    ensures
        registry_wf(spec_add_ecdsa(v, p)),
        ecdsa_has(spec_add_ecdsa(v, p), p.signer.pubkey),
        forall|pk: Seq<u8>| ecdsa_has(v, pk) ==> ecdsa_has(spec_add_ecdsa(v, p), pk),
        spec_add_ecdsa(v, p).bls == v.bls,
        ecdsa_at(spec_add_ecdsa(v, p), p.signer.pubkey) == p,
{
    let w = spec_add_ecdsa(v, p);
    if ecdsa_has(v, p.signer.pubkey) {
        let i = ecdsa_index_of(v, p.signer.pubkey);
        assert(0 <= i < v.ecdsa.len() && v.ecdsa[i].signer.pubkey == p.signer.pubkey);
        assert(w.ecdsa == v.ecdsa.update(i, p));
        assert forall|pk: Seq<u8>| ecdsa_has(v, pk) implies ecdsa_has(w, pk) by {
            let j = choose|j: int| 0 <= j < v.ecdsa.len() && v.ecdsa[j].signer.pubkey == pk;
            if j == i {
                assert(w.ecdsa[i].signer.pubkey == pk);
            } else {
                assert(w.ecdsa[j].signer.pubkey == pk);
            }
        }
        assert(w.ecdsa[i].signer.pubkey == p.signer.pubkey);
        let k = ecdsa_index_of(w, p.signer.pubkey);
        assert(0 <= k < w.ecdsa.len() && w.ecdsa[k].signer.pubkey == p.signer.pubkey);
        if k != i {
            assert(v.ecdsa[k].signer.pubkey == p.signer.pubkey);
            assert(false);
        }
    } else {
        assert(w.ecdsa == v.ecdsa.push(p));
        assert(w.ecdsa[v.ecdsa.len() as int].signer.pubkey == p.signer.pubkey);
        assert forall|pk: Seq<u8>| ecdsa_has(v, pk) implies ecdsa_has(w, pk) by {
            let j = choose|j: int| 0 <= j < v.ecdsa.len() && v.ecdsa[j].signer.pubkey == pk;
            assert(w.ecdsa[j].signer.pubkey == pk);
        }
        let k = ecdsa_index_of(w, p.signer.pubkey);
        assert(0 <= k < w.ecdsa.len() && w.ecdsa[k].signer.pubkey == p.signer.pubkey);
        if k != v.ecdsa.len() {
            assert(v.ecdsa[k].signer.pubkey == p.signer.pubkey);
            assert(false);
        }
    }
}

/// A lookup keyed to one scheme depends only on that scheme's map: the
/// other scheme's entries may change arbitrarily — even to hold keys with
/// identical raw bytes — without affecting the result.
pub proof fn lemma_cross_scheme_isolation(
    v1: RegistryView,
    v2: RegistryView,
    key: (KeyTag, Seq<u8>),
)
    requires
        match key.0 {
            KeyTag::Bls => v1.bls == v2.bls,
            KeyTag::Ecdsa => v1.ecdsa == v2.ecdsa,
        },
    ensures
        spec_get(v1, key) == spec_get(v2, key),
{
    match key.0 {
        KeyTag::Bls => {
            assert(bls_has(v1, key.1) == bls_has(v2, key.1));
            if bls_has(v1, key.1) {
                assert(bls_at(v1, key.1) == bls_at(v2, key.1));
            }
        },
        KeyTag::Ecdsa => {
            assert(ecdsa_has(v1, key.1) == ecdsa_has(v2, key.1));
            if ecdsa_has(v1, key.1) {
                assert(ecdsa_at(v1, key.1) == ecdsa_at(v2, key.1));
            }
        },
    }
}

} // verus!
