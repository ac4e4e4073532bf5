//! Public key and signature types: one concrete pair per scheme, plus the
//! generic tagged unions that the registry and manager store. Raw bytes are
//! the canonical form; views are byte sequences tagged with the scheme.

use vstd::prelude::*;
use crate::bytes::copy_bytes;

verus! {

/// The signature scheme a key or signature belongs to.
#[derive(Clone, Copy, PartialEq, Eq, Structural, Debug)]
pub enum KeyTag {
    Bls,
    Ecdsa,
}

/// A compressed BLS12-381 public key (48 bytes when produced here).
pub struct BlsPublicKey {
    pub bytes: Vec<u8>,
}

impl View for BlsPublicKey {
    type V = Seq<u8>;

    open spec fn view(&self) -> Seq<u8> {
        self.bytes@
    }
}

impl BlsPublicKey {
    pub fn duplicate(&self) -> (r: Self)
        ensures
            r@ == self@,
    {
        BlsPublicKey { bytes: copy_bytes(&self.bytes) }
    }
}

/// A compressed BLS12-381 signature (96 bytes when produced here).
pub struct BlsSignature {
    pub bytes: Vec<u8>,
}

impl View for BlsSignature {
    type V = Seq<u8>;

    open spec fn view(&self) -> Seq<u8> {
        self.bytes@
    }
}

impl BlsSignature {
    pub fn duplicate(&self) -> (r: Self)
        ensures
            r@ == self@,
    {
        BlsSignature { bytes: copy_bytes(&self.bytes) }
    }
}

/// A compressed SEC1 secp256k1 public key (33 bytes when produced here).
pub struct EcdsaPublicKey {
    pub bytes: Vec<u8>,
}

impl View for EcdsaPublicKey {
    type V = Seq<u8>;

    open spec fn view(&self) -> Seq<u8> {
        self.bytes@
    }
}

impl EcdsaPublicKey {
    pub fn duplicate(&self) -> (r: Self)
        ensures
            r@ == self@,
    {
        EcdsaPublicKey { bytes: copy_bytes(&self.bytes) }
    }
}

/// A fixed-width secp256k1 ECDSA signature (64 bytes when produced here).
pub struct EcdsaSignature {
    pub bytes: Vec<u8>,
}

impl View for EcdsaSignature {
    type V = Seq<u8>;

    open spec fn view(&self) -> Seq<u8> {
        self.bytes@
    }
}

impl EcdsaSignature {
    pub fn duplicate(&self) -> (r: Self)
        ensures
            r@ == self@,
    {
        EcdsaSignature { bytes: copy_bytes(&self.bytes) }
    }
}

/// A public key of either scheme; the view pairs the scheme tag with the
/// raw bytes.
pub enum GenericPubkey {
    Bls(BlsPublicKey),
    Ecdsa(EcdsaPublicKey),
}

impl View for GenericPubkey {
    type V = (KeyTag, Seq<u8>);

    open spec fn view(&self) -> (KeyTag, Seq<u8>) {
        match self {
            GenericPubkey::Bls(k) => (KeyTag::Bls, k@),
            GenericPubkey::Ecdsa(k) => (KeyTag::Ecdsa, k@),
        }
    }
}

impl GenericPubkey {
    /// The scheme this key belongs to.
    pub fn tag(&self) -> (t: KeyTag)
        ensures
            t == self@.0,
    {
        match self {
            GenericPubkey::Bls(_) => KeyTag::Bls,
            GenericPubkey::Ecdsa(_) => KeyTag::Ecdsa,
        }
    }

    /// The canonical raw-byte form, used for all cross-scheme comparison.
    pub fn raw_bytes(&self) -> (r: &Vec<u8>)
        ensures
            r@ == self@.1,
    {
        match self {
            GenericPubkey::Bls(k) => &k.bytes,
            GenericPubkey::Ecdsa(k) => &k.bytes,
        }
    }

    pub fn duplicate(&self) -> (r: Self)
        ensures
            r@ == self@,
    {
        match self {
            GenericPubkey::Bls(k) => GenericPubkey::Bls(k.duplicate()),
            GenericPubkey::Ecdsa(k) => GenericPubkey::Ecdsa(k.duplicate()),
        }
    }
}

/// A signature of either scheme, tagged like `GenericPubkey`.
pub enum GenericSignature {
    Bls(BlsSignature),
    Ecdsa(EcdsaSignature),
}

impl View for GenericSignature {
    type V = (KeyTag, Seq<u8>);

    open spec fn view(&self) -> (KeyTag, Seq<u8>) {
        match self {
            GenericSignature::Bls(s) => (KeyTag::Bls, s@),
            GenericSignature::Ecdsa(s) => (KeyTag::Ecdsa, s@),
        }
    }
}

impl GenericSignature {
    /// The scheme this signature belongs to.
    pub fn tag(&self) -> (t: KeyTag)
        ensures
            t == self@.0,
    {
        match self {
            GenericSignature::Bls(_) => KeyTag::Bls,
            GenericSignature::Ecdsa(_) => KeyTag::Ecdsa,
        }
    }

    /// The canonical raw-byte form.
    pub fn raw_bytes(&self) -> (r: &Vec<u8>)
        ensures
            r@ == self@.1,
    {
        match self {
            GenericSignature::Bls(s) => &s.bytes,
            GenericSignature::Ecdsa(s) => &s.bytes,
        }
    }
}

} // verus!
