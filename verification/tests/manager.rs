use signing_manager::delegation::SignedProxyDelegation;
use signing_manager::keys::{BlsPublicKey, EcdsaPublicKey, GenericPubkey, KeyTag};
use signing_manager::manager::{ModuleId, SignerModuleError, SigningManager};
use signing_manager::registry::{BlsProxySigner, GenericProxySigner, ProxySigners};
use signing_manager::roots::{compute_signing_root, Chain};
use signing_manager::signer::Signer;

const CHAIN: Chain = Chain::Holesky;

fn module_id() -> ModuleId {
    ModuleId { id: "SAMPLE_MODULE".to_string() }
}

fn init_signing_manager() -> (SigningManager, BlsPublicKey) {
    let mut signing_manager = SigningManager::new(CHAIN);

    let consensus_signer = Signer::new_random();
    let consensus_pk = consensus_signer.pubkey();

    signing_manager.add_consensus_signer(consensus_signer);

    (signing_manager, consensus_pk)
}

#[test]
fn test_proxy_key_is_valid_proxy_for_consensus_key() {
    let (mut signing_manager, consensus_pk) = init_signing_manager();

    let signed_delegation = signing_manager
        .create_proxy(KeyTag::Bls, module_id(), consensus_pk)
        .unwrap();

    let validation_result = signed_delegation.validate(CHAIN);

    assert!(
        validation_result.is_ok(),
        "Proxy delegation signature must be valid for consensus key."
    );

    assert!(
        signing_manager.has_proxy(signed_delegation.message.proxy.raw_bytes()),
        "Newly generated proxy key must be present in the signing manager's registry."
    );
}

#[test]
fn test_tampered_proxy_key_is_invalid() {
    let (mut signing_manager, consensus_pk) = init_signing_manager();

    let mut signed_delegation = signing_manager
        .create_proxy(KeyTag::Bls, module_id(), consensus_pk)
        .unwrap();

    let m = &mut signed_delegation.signature.bytes[0];
    (*m, _) = m.overflowing_add(1);

    let validation_result = signed_delegation.validate(CHAIN);

    assert!(validation_result.is_err(), "Tampered proxy key must be invalid.");
}

#[test]
fn test_proxy_key_signs_message() {
    let (mut signing_manager, consensus_pk) = init_signing_manager();

    let signed_delegation = signing_manager
        .create_proxy(KeyTag::Bls, module_id(), consensus_pk)
        .unwrap();
    let proxy_pk = signed_delegation.message.proxy;

    let data_root: Vec<u8> = (0u8..32u8).collect();

    let sig = signing_manager.sign_proxy(proxy_pk.raw_bytes(), &data_root).unwrap();

    let domain = CHAIN.builder_domain();
    let signing_root = compute_signing_root(&data_root, &domain);

    let validation_result = proxy_pk.verify_signature(&signing_root, &sig);

    assert!(
        validation_result.is_ok(),
        "Proxy keypair must produce valid signatures of messages."
    )
}

#[test]
fn test_sign_consensus_roundtrip() {
    let (signing_manager, consensus_pk) = init_signing_manager();

    let data_root = vec![7u8; 32];
    let sig = signing_manager.sign_consensus(&consensus_pk, &data_root).unwrap();

    let domain = CHAIN.builder_domain();
    let signing_root = compute_signing_root(&data_root, &domain);

    let generic_pk = GenericPubkey::Bls(consensus_pk);
    assert!(generic_pk.verify_signature(&signing_root, &sig.bytes).is_ok());

    let mut tampered = sig.bytes.clone();
    tampered[17] = tampered[17].wrapping_add(1);
    assert!(generic_pk.verify_signature(&signing_root, &tampered).is_err());
}

#[test]
fn test_unknown_consensus_signer_is_rejected() {
    let (mut signing_manager, _consensus_pk) = init_signing_manager();

    let stranger = Signer::new_random().pubkey();
    let data_root = vec![1u8; 32];

    match signing_manager.sign_consensus(&stranger, &data_root) {
        Err(SignerModuleError::UnknownConsensusSigner(bytes)) => {
            assert_eq!(bytes, stranger.bytes);
        }
        _ => panic!("signing with an unregistered consensus key must fail"),
    }

    match signing_manager.create_proxy(KeyTag::Bls, module_id(), stranger) {
        Err(SignerModuleError::UnknownConsensusSigner(_)) => {}
        _ => panic!("creating a proxy for an unregistered consensus key must fail"),
    }
}

#[test]
fn test_unknown_proxy_signer_is_rejected() {
    let (signing_manager, _consensus_pk) = init_signing_manager();

    let unknown = vec![0xabu8; 48];
    let data_root = vec![2u8; 32];

    match signing_manager.sign_proxy(&unknown, &data_root) {
        Err(SignerModuleError::UnknownProxySigner(bytes)) => {
            assert_eq!(bytes, unknown);
        }
        _ => panic!("signing with an unregistered proxy key must fail"),
    }

    match signing_manager.get_delegation(&unknown) {
        Err(SignerModuleError::UnknownProxySigner(_)) => {}
        _ => panic!("fetching a delegation for an unregistered proxy key must fail"),
    }
}

#[test]
fn test_ecdsa_proxy_roundtrip() {
    let (mut signing_manager, consensus_pk) = init_signing_manager();

    let signed_delegation = signing_manager
        .create_proxy(KeyTag::Ecdsa, module_id(), consensus_pk)
        .unwrap();

    assert!(signed_delegation.validate(CHAIN).is_ok());
    assert!(matches!(signed_delegation.message.proxy, GenericPubkey::Ecdsa(_)));

    let proxy_pk = signed_delegation.message.proxy;
    assert!(signing_manager.has_proxy(proxy_pk.raw_bytes()));

    let data_root = vec![9u8; 32];
    let sig = signing_manager.sign_proxy(proxy_pk.raw_bytes(), &data_root).unwrap();
    assert_eq!(sig.len(), 64);

    let domain = CHAIN.builder_domain();
    let signing_root = compute_signing_root(&data_root, &domain);
    assert!(proxy_pk.verify_signature(&signing_root, &sig).is_ok());
}

#[test]
fn test_two_proxies_for_one_module() {
    let (mut signing_manager, consensus_pk) = init_signing_manager();

    let first = signing_manager
        .create_proxy(KeyTag::Bls, ModuleId { id: "m1".to_string() }, consensus_pk.duplicate())
        .unwrap();
    assert!(first.validate(CHAIN).is_ok());
    assert!(signing_manager.has_proxy(first.message.proxy.raw_bytes()));

    let second = signing_manager
        .create_proxy(KeyTag::Bls, ModuleId { id: "m1".to_string() }, consensus_pk)
        .unwrap();

    let index = signing_manager.proxy_pubkeys();
    assert_eq!(index.len(), 1);
    assert_eq!(index[0].module.id, "m1");
    assert_eq!(index[0].keys.len(), 2);
    assert_ne!(
        index[0].keys[0].raw_bytes(),
        index[0].keys[1].raw_bytes(),
        "two freshly generated proxy keys must differ"
    );
    assert_eq!(index[0].keys[0].raw_bytes(), first.message.proxy.raw_bytes());
    assert_eq!(index[0].keys[1].raw_bytes(), second.message.proxy.raw_bytes());
}

#[test]
fn test_mainnet_builder_domain_value() {
    // The fork data root of an all-zero fork version and an all-zero
    // genesis validators root is the hash of 64 zero bytes.
    let expected: Vec<u8> = vec![
        0x00, 0x00, 0x00, 0x01, 0xf5, 0xa5, 0xfd, 0x42, 0xd1, 0x6a, 0x20, 0x30, 0x27, 0x98,
        0xef, 0x6e, 0xd3, 0x09, 0x97, 0x9b, 0x43, 0x00, 0x3d, 0x23, 0x20, 0xd9, 0xf0, 0xe8,
        0xea, 0x98, 0x31, 0xa9,
    ];
    assert_eq!(Chain::Mainnet.builder_domain(), expected);
}

#[test]
fn test_wrong_chain_is_rejected() {
    let (mut signing_manager, consensus_pk) = init_signing_manager();

    let signed_delegation = signing_manager
        .create_proxy(KeyTag::Bls, module_id(), consensus_pk)
        .unwrap();

    assert!(signed_delegation.validate(CHAIN).is_ok());
    assert!(signed_delegation.validate(Chain::Mainnet).is_err());
    assert!(signed_delegation.validate(Chain::Sepolia).is_err());
}

#[test]
fn test_consensus_key_listing() {
    let (signing_manager, consensus_pk) = init_signing_manager();

    let listed = signing_manager.consensus_pubkeys();
    assert_eq!(listed.len(), 1);
    assert_eq!(listed[0].bytes, consensus_pk.bytes);
    assert!(signing_manager.has_consensus(&consensus_pk));

    let stranger = Signer::new_random().pubkey();
    assert!(!signing_manager.has_consensus(&stranger));
}

#[test]
fn test_get_delegation_returns_stored_certificate() {
    let (mut signing_manager, consensus_pk) = init_signing_manager();

    let signed_delegation = signing_manager
        .create_proxy(KeyTag::Bls, module_id(), consensus_pk)
        .unwrap();

    let fetched = signing_manager
        .get_delegation(signed_delegation.message.proxy.raw_bytes())
        .unwrap();

    assert_eq!(fetched.signature.bytes, signed_delegation.signature.bytes);
    assert_eq!(
        fetched.message.proxy.raw_bytes(),
        signed_delegation.message.proxy.raw_bytes()
    );
    assert_eq!(
        fetched.message.delegator.bytes,
        signed_delegation.message.delegator.bytes
    );
    assert!(fetched.validate(CHAIN).is_ok());
}

#[test]
fn test_cross_scheme_isolation() {
    // Register a BLS proxy whose raw bytes are then also looked up under
    // the ECDSA scheme: the lookup must miss, whatever the bytes.
    let signer = Signer::new_random();
    let proxy_pk = signer.pubkey();
    let delegator = Signer::new_random().pubkey();

    let message = signing_manager::delegation::ProxyDelegation {
        delegator,
        proxy: GenericPubkey::Bls(proxy_pk.duplicate()),
    };
    let delegation = SignedProxyDelegation {
        message,
        signature: signing_manager::keys::BlsSignature { bytes: vec![0u8; 96] },
    };

    let mut registry = ProxySigners::new();
    registry.add(GenericProxySigner::Bls(BlsProxySigner::new(signer, delegation)));

    let bls_lookup = registry.get(&GenericPubkey::Bls(proxy_pk.duplicate()));
    assert!(bls_lookup.is_some());

    let ecdsa_lookup = registry.get(&GenericPubkey::Ecdsa(EcdsaPublicKey {
        bytes: proxy_pk.bytes.clone(),
    }));
    assert!(ecdsa_lookup.is_none(), "a BLS key must never answer an ECDSA lookup");

    let found = registry.find_pubkey(&proxy_pk.bytes).unwrap();
    assert!(matches!(found, GenericPubkey::Bls(_)));
}
