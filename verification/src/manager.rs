//! The signing manager: owns the consensus signers, the proxy registry and
//! the module index, and exposes the full operation set used by the
//! request layer.

use vstd::prelude::*;
use crate::bytes::{bytes_eq, copy_bytes};
use crate::crypto::{bls_signature_of, bls_unique_sig, bls_verifies, ecdsa_signature_of,
    ecdsa_verifies};
use crate::delegation::{
    spec_delegation_sig_unique, spec_delegation_signing_root, spec_delegation_valid,
    ProxyDelegation, SignedProxyDelegation,
};
use crate::keys::{BlsPublicKey, BlsSignature, GenericPubkey, KeyTag};
use crate::registry::{
    bls_at, bls_has, ecdsa_at, ecdsa_has, lemma_add_bls_membership, lemma_add_ecdsa_membership,
    registry_has_raw, registry_wf, spec_add_bls, spec_add_ecdsa, BlsProxySigner,
    EcdsaProxySigner, GenericProxySigner, ProxySigners, ProxySignerView, RegistryView,
};
use crate::roots::{spec_chain_signing_root, Chain};
use crate::signer::{Signer, EcdsaSigner, SignerView};

verus! {

/// An opaque identifier for a client module, used only as a grouping key.
pub struct ModuleId {
    pub id: String,
}

impl View for ModuleId {
    type V = Seq<char>;

    open spec fn view(&self) -> Seq<char> {
        self.id@
    }
}

/// The errors the manager surfaces; each carries the offending raw public
/// key bytes.
#[derive(Debug)]
pub enum SignerModuleError {
    UnknownConsensusSigner(Vec<u8>),
    UnknownProxySigner(Vec<u8>),
}

/// One module's issued proxy keys, in order of issue.
pub struct ModuleProxyKeys {
    pub module: ModuleId,
    pub keys: Vec<GenericPubkey>,
}

/// Mathematical model of one module-index entry.
pub struct ModuleEntryView {
    pub module: Seq<char>,
    pub keys: Seq<(KeyTag, Seq<u8>)>,
}

impl View for ModuleProxyKeys {
    type V = ModuleEntryView;

    open spec fn view(&self) -> ModuleEntryView {
        ModuleEntryView {
            module: self.module@,
            keys: self.keys@.map_values(|k: GenericPubkey| k@),
        }
    }
}

/// Mathematical model of the whole manager.
pub struct ManagerView {
    pub chain: Chain,
    pub consensus: Seq<SignerView>,
    pub proxies: RegistryView,
    pub modules: Seq<ModuleEntryView>,
}

pub open spec fn consensus_has(v: ManagerView, pk: Seq<u8>) -> bool {
    exists|i: int| 0 <= i < v.consensus.len() && v.consensus[i].pubkey == pk
}

pub open spec fn consensus_index_of(v: ManagerView, pk: Seq<u8>) -> int {
    choose|i: int| 0 <= i < v.consensus.len() && v.consensus[i].pubkey == pk
}

/// The secret key of the registered consensus signer with these public key
/// bytes.
pub open spec fn consensus_secret(v: ManagerView, pk: Seq<u8>) -> Seq<u8> {
    v.consensus[consensus_index_of(v, pk)].secret
}

pub open spec fn modules_has(ms: Seq<ModuleEntryView>, m: Seq<char>) -> bool {
    exists|i: int| 0 <= i < ms.len() && ms[i].module == m
}

pub open spec fn modules_index_of(ms: Seq<ModuleEntryView>, m: Seq<char>) -> int {
    choose|i: int| 0 <= i < ms.len() && ms[i].module == m
}

/// The proxy keys issued so far to a module (empty if the module has
/// none).
pub open spec fn module_keys(v: ManagerView, m: Seq<char>) -> Seq<(KeyTag, Seq<u8>)> {
    if modules_has(v.modules, m) {
        v.modules[modules_index_of(v.modules, m)].keys
    } else {
        Seq::empty()
    }
}

/// The key is present in the registry map of its own scheme.
pub open spec fn registered(r: RegistryView, key: (KeyTag, Seq<u8>)) -> bool {
    match key.0 {
        KeyTag::Bls => bls_has(r, key.1),
        KeyTag::Ecdsa => ecdsa_has(r, key.1),
    }
}

/// The module index after appending one key to a module's list (creating
/// the entry if the module is new).
pub open spec fn spec_append_module(
    ms: Seq<ModuleEntryView>,
    m: Seq<char>,
    k: (KeyTag, Seq<u8>),
) -> Seq<ModuleEntryView> {
    if modules_has(ms, m) {
        let i = modules_index_of(ms, m);
        ms.update(i, ModuleEntryView { module: m, keys: ms[i].keys.push(k) })
    } else {
        ms.push(ModuleEntryView { module: m, keys: seq![k] })
    }
}

/// The manager's invariant: unique consensus keys, a well-formed registry,
/// unique module names, and every indexed proxy key present in the
/// registry.
pub open spec fn manager_wf(v: ManagerView) -> bool {
    &&& forall|i: int, j: int|
        0 <= i < j < v.consensus.len() ==> v.consensus[i].pubkey != v.consensus[j].pubkey
    &&& registry_wf(v.proxies)
    &&& forall|i: int, j: int|
        0 <= i < j < v.modules.len() ==> v.modules[i].module != v.modules[j].module
    &&& forall|i: int, k: int|
        0 <= i < v.modules.len() && 0 <= k < v.modules[i].keys.len() ==> registered(
            v.proxies,
            v.modules[i].keys[k],
        )
}

/// Well-formedness carries over to a manager state with the same registry
/// and module index and consensus keys still unique.
proof fn lemma_wf_same_modules(v0: ManagerView, v1: ManagerView)
    requires
        manager_wf(v0),
        v1.proxies == v0.proxies,
        v1.modules == v0.modules,
        forall|i: int, j: int|
            0 <= i < j < v1.consensus.len() ==> v1.consensus[i].pubkey != v1.consensus[j].pubkey,
    ensures
        manager_wf(v1),
{
    assert forall|i: int, j: int|
        0 <= i < j < v1.modules.len() implies v1.modules[i].module != v1.modules[j].module by {
        assert(v1.modules[i] == v0.modules[i]);
        assert(v1.modules[j] == v0.modules[j]);
    }
    assert forall|i: int, k: int|
        0 <= i < v1.modules.len() && 0 <= k < v1.modules[i].keys.len() implies registered(
            v1.proxies,
            v1.modules[i].keys[k],
        ) by {
        assert(v1.modules[i] == v0.modules[i]);
        assert(registered(v0.proxies, v0.modules[i].keys[k]));
    }
}

/// The top-level façade over consensus signers, proxy signers and the
/// module index.
pub struct SigningManager {
    chain: Chain,
    consensus_signers: Vec<Signer>,
    proxy_signers: ProxySigners,
    proxy_pubkeys: Vec<ModuleProxyKeys>,
}

impl View for SigningManager {
    type V = ManagerView;

    closed spec fn view(&self) -> ManagerView {
        ManagerView {
            chain: self.chain,
            consensus: self.consensus_signers@.map_values(|s: Signer| s@),
            proxies: self.proxy_signers@,
            modules: self.proxy_pubkeys@.map_values(|m: ModuleProxyKeys| m@),
        }
    }
}

impl SigningManager {
    /// An empty manager for one chain.
    pub fn new(chain: Chain) -> (m: Self)
        ensures
            m@.chain == chain,
            m@.consensus.len() == 0,
            m@.proxies.bls.len() == 0,
            m@.proxies.ecdsa.len() == 0,
            m@.modules.len() == 0,
            manager_wf(m@),
    {
        let m = SigningManager {
            chain,
            consensus_signers: Vec::new(),
            proxy_signers: ProxySigners::new(),
            proxy_pubkeys: Vec::new(),
        };
        assert(m@.consensus =~= Seq::<SignerView>::empty());
        assert(m@.modules =~= Seq::<ModuleEntryView>::empty());
        m
    }

    /// Index of the consensus signer with these public key bytes, if any.
    fn find_consensus_index(&self, pk: &Vec<u8>) -> (r: Option<usize>)
        ensures
            (r is Some) == consensus_has(self@, pk@),
            r matches Some(i) ==> i < self@.consensus.len() && self@.consensus[i as int].pubkey
                == pk@,
    {
        let mut i: usize = 0;
        while i < self.consensus_signers.len()
            invariant
                i <= self.consensus_signers@.len(),
                self@.consensus.len() == self.consensus_signers@.len(),
                forall|j: int| 0 <= j < i ==> self@.consensus[j].pubkey != pk@,
                forall|j: int|
                    0 <= j < self@.consensus.len() ==> self@.consensus[j]
                        == self.consensus_signers@[j]@,
            decreases self.consensus_signers@.len() - i,
        {
            let cand = &self.consensus_signers[i];
            let cpk = cand.pubkey();
            if bytes_eq(&cpk.bytes, pk) {
                assert(self@.consensus[i as int].pubkey == pk@);
                return Some(i);
            }
            i += 1;
        }
        assert(!consensus_has(self@, pk@));
        None
    }

    /// Register a consensus signer under its own public key, overwriting a
    /// signer already registered under the same key.
    pub fn add_consensus_signer(&mut self, signer: Signer)
        requires
            manager_wf(old(self)@),
        ensures
            manager_wf(final(self)@),
            final(self)@.chain == old(self)@.chain,
            final(self)@.proxies == old(self)@.proxies,
            final(self)@.modules == old(self)@.modules,
            consensus_has(final(self)@, signer@.pubkey),
            if consensus_has(old(self)@, signer@.pubkey) {
                final(self)@.consensus == old(self)@.consensus.update(
                    consensus_index_of(old(self)@, signer@.pubkey),
                    signer@,
                )
            } else {
                final(self)@.consensus == old(self)@.consensus.push(signer@)
            },
            forall|pk: Seq<u8>|
                consensus_has(old(self)@, pk) ==> consensus_has(final(self)@, pk),
    {
        let ghost v0 = self@;
        let pk = signer.pubkey();
        let found = self.find_consensus_index(&pk.bytes);
        match found {
            Some(at) => {
                proof {
                    assert(consensus_has(v0, signer@.pubkey));
                    let i = consensus_index_of(v0, signer@.pubkey);
                    assert(0 <= i < v0.consensus.len() && v0.consensus[i].pubkey
                        == signer@.pubkey);
                    assert(i == at as int);
                }
                let _prev = self.consensus_signers.remove(at);
                self.consensus_signers.insert(at, signer);
                proof {
                    assert(self@.consensus =~= v0.consensus.update(at as int, signer@));
                    assert(self@.consensus[at as int].pubkey == signer@.pubkey);
                    assert forall|i: int, j: int|
                        0 <= i < j < self@.consensus.len() implies self@.consensus[i].pubkey
                        != self@.consensus[j].pubkey by {
                        assert(v0.consensus[at as int].pubkey == signer@.pubkey);
                        assert(self@.consensus[i].pubkey == v0.consensus[i].pubkey);
                        assert(self@.consensus[j].pubkey == v0.consensus[j].pubkey);
                    }
                    assert forall|pk2: Seq<u8>| consensus_has(v0, pk2) implies consensus_has(
                        self@,
                        pk2,
                    ) by {
                        let j = choose|j: int|
                            0 <= j < v0.consensus.len() && v0.consensus[j].pubkey == pk2;
                        if j == at as int {
                            assert(self@.consensus[j].pubkey == signer@.pubkey);
                            assert(v0.consensus[j].pubkey == signer@.pubkey);
                        } else {
                            assert(self@.consensus[j].pubkey == pk2);
                        }
                    }
                    lemma_wf_same_modules(v0, self@);
                }
            },
            None => {
                self.consensus_signers.push(signer);
                proof {
                    assert(self@.consensus =~= v0.consensus.push(signer@));
                    assert(self@.consensus[v0.consensus.len() as int].pubkey == signer@.pubkey);
                    assert forall|i: int, j: int|
                        0 <= i < j < self@.consensus.len() implies self@.consensus[i].pubkey
                        != self@.consensus[j].pubkey by {
                        if j == v0.consensus.len() as int {
                            if self@.consensus[i].pubkey == signer@.pubkey {
                                assert(v0.consensus[i].pubkey == signer@.pubkey);
                                assert(consensus_has(v0, signer@.pubkey));
                            }
                        } else {
                            assert(self@.consensus[i].pubkey == v0.consensus[i].pubkey);
                            assert(self@.consensus[j].pubkey == v0.consensus[j].pubkey);
                        }
                    }
                    lemma_wf_same_modules(v0, self@);
                    assert forall|pk2: Seq<u8>| consensus_has(v0, pk2) implies consensus_has(
                        self@,
                        pk2,
                    ) by {
                        let j = choose|j: int|
                            0 <= j < v0.consensus.len() && v0.consensus[j].pubkey == pk2;
                        assert(self@.consensus[j].pubkey == pk2);
                    }
                }
            },
        }
    }

    /// Register a proxy signer in the registry, keyed by its own public
    /// key.
    pub fn add_proxy_signer(&mut self, proxy: GenericProxySigner)
        requires
            manager_wf(old(self)@),
        ensures
            manager_wf(final(self)@),
            final(self)@.chain == old(self)@.chain,
            final(self)@.consensus == old(self)@.consensus,
            final(self)@.modules == old(self)@.modules,
            proxy@.tag == KeyTag::Bls ==> final(self)@.proxies == spec_add_bls(
                old(self)@.proxies,
                proxy@.proxy,
            ),
            proxy@.tag == KeyTag::Ecdsa ==> final(self)@.proxies == spec_add_ecdsa(
                old(self)@.proxies,
                proxy@.proxy,
            ),
            registered(final(self)@.proxies, (proxy@.tag, proxy@.proxy.signer.pubkey)),
    {
        let ghost v0 = self@;
        let ghost pv = proxy@;
        self.proxy_signers.add(proxy);
        proof {
            match pv.tag {
                KeyTag::Bls => lemma_add_bls_membership(v0.proxies, pv.proxy),
                KeyTag::Ecdsa => lemma_add_ecdsa_membership(v0.proxies, pv.proxy),
            }
            assert(self@.modules == v0.modules);
            assert(self@.consensus == v0.consensus);
            assert forall|i: int, j: int|
                0 <= i < j < self@.consensus.len() implies self@.consensus[i].pubkey
                != self@.consensus[j].pubkey by {
                assert(self@.consensus[i] == v0.consensus[i]);
                assert(self@.consensus[j] == v0.consensus[j]);
            }
            assert forall|i: int, j: int|
                0 <= i < j < self@.modules.len() implies self@.modules[i].module
                != self@.modules[j].module by {
                assert(self@.modules[i] == v0.modules[i]);
                assert(self@.modules[j] == v0.modules[j]);
            }
            assert forall|i: int, k: int|
                0 <= i < self@.modules.len() && 0 <= k < self@.modules[i].keys.len()
                implies registered(self@.proxies, self@.modules[i].keys[k]) by {
                assert(self@.modules[i] == v0.modules[i]);
                assert(registered(v0.proxies, v0.modules[i].keys[k]));
                let key = v0.modules[i].keys[k];
                match key.0 {
                    KeyTag::Bls => {
                        assert(bls_has(v0.proxies, key.1));
                        if pv.tag == KeyTag::Bls {
                            assert(bls_has(self@.proxies, key.1));
                        } else {
                            assert(self@.proxies.bls == v0.proxies.bls);
                        }
                    },
                    KeyTag::Ecdsa => {
                        assert(ecdsa_has(v0.proxies, key.1));
                        if pv.tag == KeyTag::Ecdsa {
                            assert(ecdsa_has(self@.proxies, key.1));
                        } else {
                            assert(self@.proxies.ecdsa == v0.proxies.ecdsa);
                        }
                    },
                }
            }
        }
    }

    /// Append a proxy key to a module's issued-keys list.
    fn append_module_key(&mut self, module_id: ModuleId, key: GenericPubkey)
        requires
            forall|i: int, j: int|
                0 <= i < j < old(self)@.modules.len() ==> old(self)@.modules[i].module != old(
                    self,
                )@.modules[j].module,
        ensures
            final(self)@.chain == old(self)@.chain,
            final(self)@.consensus == old(self)@.consensus,
            final(self)@.proxies == old(self)@.proxies,
            final(self)@.modules == spec_append_module(old(self)@.modules, module_id@, key@),
            forall|i: int, j: int|
                0 <= i < j < final(self)@.modules.len() ==> final(self)@.modules[i].module
                    != final(self)@.modules[j].module,
    {
        let ghost ms0 = self@.modules;
        let mut i: usize = 0;
        let mut found: bool = false;
        let mut at: usize = 0;
        while i < self.proxy_pubkeys.len()
            invariant
                i <= self.proxy_pubkeys@.len(),
                self@.modules == ms0,
                self@.modules.len() == self.proxy_pubkeys@.len(),
                forall|j: int|
                    0 <= j < self@.modules.len() ==> self@.modules[j] == self.proxy_pubkeys@[j]@,
                found ==> at < i && self@.modules[at as int].module == module_id@,
                !found ==> forall|j: int| 0 <= j < i ==> self@.modules[j].module != module_id@,
                forall|i2: int, j2: int|
                    0 <= i2 < j2 < ms0.len() ==> ms0[i2].module != ms0[j2].module,
            decreases self.proxy_pubkeys@.len() - i,
        {
            if !found {
                if self.proxy_pubkeys[i].module.id == module_id.id {
                    found = true;
                    at = i;
                }
            }
            i += 1;
        }
        if found {
            assert(modules_has(ms0, module_id@));
            assert(modules_index_of(ms0, module_id@) == at as int);
            let mut entry = self.proxy_pubkeys.remove(at);
            entry.keys.push(key);
            let ghost entry_v = entry@;
            self.proxy_pubkeys.insert(at, entry);
            proof {
                assert(entry_v.keys =~= ms0[at as int].keys.push(key@));
                assert(entry_v.module == module_id@);
                assert(entry_v =~= (ModuleEntryView {
                    module: module_id@,
                    keys: ms0[at as int].keys.push(key@),
                }));
                assert(self@.modules =~= ms0.update(at as int, entry_v));
                assert(self@.modules =~= spec_append_module(ms0, module_id@, key@));
            }
        } else {
            assert(!modules_has(ms0, module_id@));
            let mut keys: Vec<GenericPubkey> = Vec::new();
            keys.push(key);
            let entry = ModuleProxyKeys { module: module_id, keys };
            let ghost entry_v = entry@;
            self.proxy_pubkeys.push(entry);
            proof {
                assert(entry_v.keys =~= seq![key@]);
                assert(self@.modules =~= ms0.push(entry_v));
                assert(entry_v =~= (ModuleEntryView { module: module_id@, keys: seq![key@] }));
                assert(self@.modules =~= spec_append_module(ms0, module_id@, key@));
            }
        }
    }

    /// Create a proxy key of the chosen scheme for a module: generate a
    /// fresh keypair, sign the delegation statement with the delegator's
    /// consensus key, publish the new proxy in the registry and the module
    /// index, and return the certificate. On an unknown delegator nothing
    /// is changed.
    pub fn create_proxy(
        &mut self,
        scheme: KeyTag,
        module_id: ModuleId,
        delegator: BlsPublicKey,
    ) -> (r: Result<SignedProxyDelegation, SignerModuleError>)
        requires
            manager_wf(old(self)@),
        ensures
            manager_wf(final(self)@),
            final(self)@.chain == old(self)@.chain,
            final(self)@.consensus == old(self)@.consensus,
            (r is Ok) == consensus_has(old(self)@, delegator@),
            r matches Err(SignerModuleError::UnknownConsensusSigner(b)) ==> b@ == delegator@
                && final(self)@ == old(self)@,
            r matches Err(e) ==> e matches SignerModuleError::UnknownConsensusSigner(_),
            r matches Ok(sd) ==> {
                &&& sd@.message.delegator == delegator@
                &&& sd@.message.proxy.0 == scheme
                &&& sd@.signature == bls_signature_of(
                    consensus_secret(old(self)@, delegator@),
                    spec_delegation_signing_root(old(self)@.chain, sd@.message),
                )
                &&& spec_delegation_valid(old(self)@.chain, sd@)
                &&& spec_delegation_sig_unique(old(self)@.chain, sd@)
                &&& registered(final(self)@.proxies, sd@.message.proxy)
                &&& registry_has_raw(final(self)@.proxies, sd@.message.proxy.1)
                &&& final(self)@.modules == spec_append_module(
                    old(self)@.modules,
                    module_id@,
                    sd@.message.proxy,
                )
                &&& module_keys(final(self)@, module_id@).contains(sd@.message.proxy)
                &&& exists|p: ProxySignerView|
                    {
                        &&& p.delegation == sd@
                        &&& p.signer.pubkey == sd@.message.proxy.1
                        &&& if scheme == KeyTag::Bls {
                            final(self)@.proxies == spec_add_bls(old(self)@.proxies, p)
                        } else {
                            final(self)@.proxies == spec_add_ecdsa(old(self)@.proxies, p)
                        }
                    }
            },
    {
        let ghost v0 = self@;
        let found = self.find_consensus_index(&delegator.bytes);
        let at = match found {
            Some(i) => i,
            None => {
                return Err(SignerModuleError::UnknownConsensusSigner(copy_bytes(
                    &delegator.bytes,
                )));
            },
        };
        proof {
            let i = consensus_index_of(v0, delegator@);
            assert(0 <= i < v0.consensus.len() && v0.consensus[i].pubkey == delegator@);
            assert(i == at as int);
        }
        match scheme {
            KeyTag::Bls => {
                let proxy_keypair = Signer::new_random();
                let proxy_pubkey = GenericPubkey::Bls(proxy_keypair.pubkey());
                let stored_pubkey = proxy_pubkey.duplicate();
                let message = ProxyDelegation { delegator, proxy: proxy_pubkey };
                let root = message.tree_hash_root();
                let cons = &self.consensus_signers[at];
                let signature = cons.sign(self.chain, &root);
                let signed = SignedProxyDelegation { message, signature };
                let stored = signed.duplicate();
                let proxy_signer = GenericProxySigner::Bls(
                    BlsProxySigner::new(proxy_keypair, stored),
                );
                let ghost pv = proxy_signer@.proxy;
                self.add_proxy_signer(proxy_signer);
                self.append_module_key(module_id, stored_pubkey);
                proof {
                    lemma_add_bls_membership(v0.proxies, pv);
                    assert(module_keys(self@, module_id@).contains(signed@.message.proxy)) by {
                        let ms1 = spec_append_module(v0.modules, module_id@, signed@.message.proxy);
                        if modules_has(v0.modules, module_id@) {
                            let i = modules_index_of(v0.modules, module_id@);
                            assert(ms1[i].module == module_id@);
                            assert(modules_has(ms1, module_id@));
                            let j = modules_index_of(ms1, module_id@);
                            if j != i {
                                assert(ms1[j] == v0.modules[j]);
                                assert(v0.modules[j].module == v0.modules[i].module);
                                assert(false);
                            }
                            assert(ms1[i].keys.last() == signed@.message.proxy);
                        } else {
                            let n = v0.modules.len() as int;
                            assert(ms1[n].module == module_id@);
                            assert(modules_has(ms1, module_id@));
                            let j = modules_index_of(ms1, module_id@);
                            if j != n {
                                assert(v0.modules[j].module == module_id@);
                                assert(false);
                            }
                            assert(ms1[n].keys[0] == signed@.message.proxy);
                        }
                    }
                    assert(manager_wf(self@)) by {
                        assert forall|i: int, k: int|
                            0 <= i < self@.modules.len() && 0 <= k < self@.modules[i].keys.len()
                            implies registered(self@.proxies, self@.modules[i].keys[k]) by {
                            let ms1 = self@.modules;
                            if modules_has(v0.modules, module_id@) {
                                let mi = modules_index_of(v0.modules, module_id@);
                                if i == mi {
                                    if k < v0.modules[mi].keys.len() {
                                        assert(registered(v0.proxies, v0.modules[mi].keys[k]));
                                    } else {
                                        assert(ms1[i].keys[k] == signed@.message.proxy);
                                    }
                                } else {
                                    assert(registered(v0.proxies, v0.modules[i].keys[k]));
                                }
                            } else {
                                if i < v0.modules.len() {
                                    assert(registered(v0.proxies, v0.modules[i].keys[k]));
                                } else {
                                    assert(ms1[i].keys[k] == signed@.message.proxy);
                                }
                            }
                        }
                    }
                }
                Ok(signed)
            },
            KeyTag::Ecdsa => {
                let proxy_keypair = EcdsaSigner::new_random();
                let proxy_pubkey = GenericPubkey::Ecdsa(proxy_keypair.pubkey());
                let stored_pubkey = proxy_pubkey.duplicate();
                let message = ProxyDelegation { delegator, proxy: proxy_pubkey };
                let root = message.tree_hash_root();
                let cons = &self.consensus_signers[at];
                let signature = cons.sign(self.chain, &root);
                let signed = SignedProxyDelegation { message, signature };
                let stored = signed.duplicate();
                let proxy_signer = GenericProxySigner::Ecdsa(
                    EcdsaProxySigner::new(proxy_keypair, stored),
                );
                let ghost pv = proxy_signer@.proxy;
                self.add_proxy_signer(proxy_signer);
                self.append_module_key(module_id, stored_pubkey);
                proof {
                    lemma_add_ecdsa_membership(v0.proxies, pv);
                    assert(module_keys(self@, module_id@).contains(signed@.message.proxy)) by {
                        let ms1 = spec_append_module(v0.modules, module_id@, signed@.message.proxy);
                        if modules_has(v0.modules, module_id@) {
                            let i = modules_index_of(v0.modules, module_id@);
                            assert(ms1[i].module == module_id@);
                            assert(modules_has(ms1, module_id@));
                            let j = modules_index_of(ms1, module_id@);
                            if j != i {
                                assert(ms1[j] == v0.modules[j]);
                                assert(v0.modules[j].module == v0.modules[i].module);
                                assert(false);
                            }
                            assert(ms1[i].keys.last() == signed@.message.proxy);
                        } else {
                            let n = v0.modules.len() as int;
                            assert(ms1[n].module == module_id@);
                            assert(modules_has(ms1, module_id@));
                            let j = modules_index_of(ms1, module_id@);
                            if j != n {
                                assert(v0.modules[j].module == module_id@);
                                assert(false);
                            }
                            assert(ms1[n].keys[0] == signed@.message.proxy);
                        }
                    }
                    assert(manager_wf(self@)) by {
                        assert forall|i: int, k: int|
                            0 <= i < self@.modules.len() && 0 <= k < self@.modules[i].keys.len()
                            implies registered(self@.proxies, self@.modules[i].keys[k]) by {
                            let ms1 = self@.modules;
                            if modules_has(v0.modules, module_id@) {
                                let mi = modules_index_of(v0.modules, module_id@);
                                if i == mi {
                                    if k < v0.modules[mi].keys.len() {
                                        assert(registered(v0.proxies, v0.modules[mi].keys[k]));
                                    } else {
                                        assert(ms1[i].keys[k] == signed@.message.proxy);
                                    }
                                } else {
                                    assert(registered(v0.proxies, v0.modules[i].keys[k]));
                                }
                            } else {
                                if i < v0.modules.len() {
                                    assert(registered(v0.proxies, v0.modules[i].keys[k]));
                                } else {
                                    assert(ms1[i].keys[k] == signed@.message.proxy);
                                }
                            }
                        }
                    }
                }
                Ok(signed)
            },
        }
    }

    /// Sign a 32-byte object root with a registered consensus key, under
    /// this manager's chain. The result is the unique signature accepted
    /// for that key and root.
    pub fn sign_consensus(&self, pubkey: &BlsPublicKey, object_root: &Vec<u8>) -> (r: Result<
        BlsSignature,
        SignerModuleError,
    >)
        requires
            manager_wf(self@),
        ensures
            (r is Ok) == consensus_has(self@, pubkey@),
            r matches Err(SignerModuleError::UnknownConsensusSigner(b)) ==> b@ == pubkey@,
            r matches Err(e) ==> e matches SignerModuleError::UnknownConsensusSigner(_),
            r matches Ok(sig) ==> {
                &&& sig@ == bls_signature_of(
                    consensus_secret(self@, pubkey@),
                    spec_chain_signing_root(self@.chain, object_root@),
                )
                &&& sig@.len() == 96
                &&& bls_verifies(pubkey@, spec_chain_signing_root(self@.chain, object_root@), sig@)
                &&& bls_unique_sig(pubkey@, spec_chain_signing_root(self@.chain, object_root@), sig@)
            },
    {
        let found = self.find_consensus_index(&pubkey.bytes);
        match found {
            Some(at) => {
                proof {
                    let i = consensus_index_of(self@, pubkey@);
                    assert(0 <= i < self@.consensus.len() && self@.consensus[i].pubkey == pubkey@);
                    assert(i == at as int);
                }
                let cons = &self.consensus_signers[at];
                let sig = cons.sign(self.chain, object_root);
                Ok(sig)
            },
            None => Err(SignerModuleError::UnknownConsensusSigner(copy_bytes(&pubkey.bytes))),
        }
    }

    /// The registered proxy signer whose key has these raw bytes, searched
    /// across both schemes.
    fn find_proxy(&self, pubkey: &Vec<u8>) -> (r: Option<GenericProxySigner>)
        requires
            manager_wf(self@),
        ensures
            (r is Some) == registry_has_raw(self@.proxies, pubkey@),
            r matches Some(g) ==> {
                &&& g@.proxy.signer.pubkey == pubkey@
                &&& if bls_has(self@.proxies, pubkey@) {
                    g@.tag == KeyTag::Bls && g@.proxy == bls_at(self@.proxies, pubkey@)
                } else {
                    g@.tag == KeyTag::Ecdsa && g@.proxy == ecdsa_at(self@.proxies, pubkey@)
                }
            },
    {
        let generic_pubkey = match self.proxy_signers.find_pubkey(pubkey) {
            Some(g) => g,
            None => {
                return None;
            },
        };
        match self.proxy_signers.get(&generic_pubkey) {
            Some(proxy) => Some(proxy),
            None => {
                proof {
                    assert(false);
                }
                None
            },
        }
    }

    /// Sign a 32-byte object root with a registered proxy key, under this
    /// manager's chain, returning the raw signature bytes of the proxy's
    /// scheme.
    pub fn sign_proxy(&self, pubkey: &Vec<u8>, object_root: &Vec<u8>) -> (r: Result<
        Vec<u8>,
        SignerModuleError,
    >)
        requires
            manager_wf(self@),
        ensures
            (r is Ok) == registry_has_raw(self@.proxies, pubkey@),
            r matches Err(SignerModuleError::UnknownProxySigner(b)) ==> b@ == pubkey@,
            r matches Err(e) ==> e matches SignerModuleError::UnknownProxySigner(_),
            r matches Ok(sig) ==> if bls_has(self@.proxies, pubkey@) {
                &&& sig@ == bls_signature_of(
                    bls_at(self@.proxies, pubkey@).signer.secret,
                    spec_chain_signing_root(self@.chain, object_root@),
                )
                &&& bls_verifies(pubkey@, spec_chain_signing_root(self@.chain, object_root@), sig@)
                &&& bls_unique_sig(pubkey@, spec_chain_signing_root(self@.chain, object_root@), sig@)
            } else {
                &&& sig@ == ecdsa_signature_of(
                    ecdsa_at(self@.proxies, pubkey@).signer.secret,
                    spec_chain_signing_root(self@.chain, object_root@),
                )
                &&& ecdsa_verifies(pubkey@, spec_chain_signing_root(self@.chain, object_root@), sig@)
            },
    {
        let proxy = match self.find_proxy(pubkey) {
            Some(p) => p,
            None => {
                return Err(SignerModuleError::UnknownProxySigner(copy_bytes(pubkey)));
            },
        };
        let sig = proxy.sign(self.chain, object_root);
        Ok(sig)
    }

    /// All registered consensus public keys, in registration order.
    pub fn consensus_pubkeys(&self) -> (r: Vec<BlsPublicKey>)
        ensures
            r@.len() == self@.consensus.len(),
            forall|i: int| 0 <= i < r@.len() ==> r@[i]@ == self@.consensus[i].pubkey,
    {
        let mut r: Vec<BlsPublicKey> = Vec::new();
        let mut i: usize = 0;
        while i < self.consensus_signers.len()
            invariant
                i <= self.consensus_signers@.len(),
                self@.consensus.len() == self.consensus_signers@.len(),
                r@.len() == i,
                forall|j: int| 0 <= j < i ==> r@[j]@ == self@.consensus[j].pubkey,
                forall|j: int|
                    0 <= j < self@.consensus.len() ==> self@.consensus[j]
                        == self.consensus_signers@[j]@,
            decreases self.consensus_signers@.len() - i,
        {
            let pk = self.consensus_signers[i].pubkey();
            r.push(pk);
            i += 1;
        }
        r
    }

    /// The module-to-issued-proxy-keys index, read only.
    pub fn proxy_pubkeys(&self) -> (r: &Vec<ModuleProxyKeys>)
        ensures
            r@.len() == self@.modules.len(),
            forall|i: int| 0 <= i < r@.len() ==> r@[i]@ == self@.modules[i],
    {
        &self.proxy_pubkeys
    }

    /// Whether a consensus key with these bytes is registered.
    pub fn has_consensus(&self, pubkey: &BlsPublicKey) -> (r: bool)
        ensures
            r == consensus_has(self@, pubkey@),
    {
        self.find_consensus_index(&pubkey.bytes).is_some()
    }

    /// Whether a proxy key with these raw bytes is registered in either
    /// scheme.
    pub fn has_proxy(&self, pubkey: &Vec<u8>) -> (r: bool)
        ensures
            r == registry_has_raw(self@.proxies, pubkey@),
    {
        self.proxy_signers.find_pubkey(pubkey).is_some()
    }

    /// The stored delegation certificate of the proxy with these raw
    /// bytes.
    pub fn get_delegation(&self, pubkey: &Vec<u8>) -> (r: Result<
        SignedProxyDelegation,
        SignerModuleError,
    >)
        requires
            manager_wf(self@),
        ensures
            (r is Ok) == registry_has_raw(self@.proxies, pubkey@),
            r matches Err(SignerModuleError::UnknownProxySigner(b)) ==> b@ == pubkey@,
            r matches Err(e) ==> e matches SignerModuleError::UnknownProxySigner(_),
            r matches Ok(d) ==> d@ == if bls_has(self@.proxies, pubkey@) {
                bls_at(self@.proxies, pubkey@).delegation
            } else {
                ecdsa_at(self@.proxies, pubkey@).delegation
            },
    {
        let proxy = match self.find_proxy(pubkey) {
            Some(p) => p,
            None => {
                return Err(SignerModuleError::UnknownProxySigner(copy_bytes(pubkey)));
            },
        };
        Ok(proxy.delegation())
    }
}

} // verus!
