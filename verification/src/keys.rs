//! Public keys, held as the bytes that stand for them on the wire.
use fastcrypto::traits::ToFromBytes;
use vstd::prelude::*;
use vstd::slice::slice_to_vec;

verus! {

/// Whether fastcrypto takes these bytes for an Ed25519 public key.
pub uninterp spec fn is_ed25519_key(bytes: Seq<u8>) -> bool;

/// Calls `fastcrypto::ed25519::Ed25519PublicKey::from_bytes` and hands out the bytes of the key. A
/// key has thirty-two bytes, and they are the ones that it was read from. Which points of the curve
/// are keys is left to the name.
#[verifier::external_body]
fn read_ed25519(bytes: &[u8]) -> (key: Option<Vec<u8>>)
    ensures
        key is Some <==> is_ed25519_key(bytes@),
        key is Some ==> key->0@ == bytes@ && key->0@.len() == 32,
{
    match fastcrypto::ed25519::Ed25519PublicKey::from_bytes(bytes) {
        Ok(key) => Some(key.as_ref().to_vec()),
        Err(_) => None,
    }
}

/// What fastcrypto makes of these bytes as a Secp256r1 public key: the compressed form of the point
/// that they stand for.
pub uninterp spec fn secp256r1_key(bytes: Seq<u8>) -> Option<Seq<u8>>;

/// Calls `fastcrypto::secp256r1::Secp256r1PublicKey::from_bytes` and hands out the thirty-three
/// bytes of the point's compressed form, as `to_encoded_point` of the key inside gives them. Which
/// bytes are a key, and of which point, is left to the name.
#[verifier::external_body]
fn read_secp256r1(bytes: &[u8]) -> (key: Option<Vec<u8>>)
    ensures
        key is Some <==> secp256r1_key(bytes@) is Some,
        key is Some ==> key->0@ == secp256r1_key(bytes@)->0 && key->0@.len() == 33,
{
    match fastcrypto::secp256r1::Secp256r1PublicKey::from_bytes(bytes) {
        Ok(key) => Some(key.pubkey.to_encoded_point(true).as_bytes().to_vec()),
        Err(_) => None,
    }
}

/// An Ed25519 public key.
#[derive(Debug, PartialEq, Eq, Hash)]
pub struct Ed25519PublicKey {
    bytes: Vec<u8>,
}

impl View for Ed25519PublicKey {
    type V = Seq<u8>;

    closed spec fn view(&self) -> Seq<u8> {
        self.bytes@
    }
}

impl Ed25519PublicKey {
    #[verifier::type_invariant]
    spec fn accepted(self) -> bool {
        &&& is_ed25519_key(self.bytes@)
        &&& self.bytes@.len() == 32
    }

    /// Reads a key from its bytes; `None` where they are no key.
    pub fn from_bytes(bytes: &[u8]) -> (key: Option<Self>)
        ensures
            key is Some <==> is_ed25519_key(bytes@),
            key is Some ==> key->0@ == bytes@ && key->0@.len() == 32,
    {
        match read_ed25519(bytes) {
            Some(bytes) => Some(Ed25519PublicKey { bytes }),
            None => None,
        }
    }

    /// The bytes of the key.
    pub fn as_bytes(&self) -> (bytes: &[u8])
        ensures
            bytes@ == self@,
            is_ed25519_key(bytes@),
            bytes@.len() == 32,
    {
        proof {
            use_type_invariant(self);
        }
        self.bytes.as_slice()
    }
}

impl Clone for Ed25519PublicKey {
    fn clone(&self) -> (copy: Self)
        ensures
            copy@ == self@,
    {
        proof {
            use_type_invariant(self);
        }
        Ed25519PublicKey { bytes: slice_to_vec(self.bytes.as_slice()) }
    }
}

/// A Secp256r1 public key, held in compressed form: two keys are equal where their points are.
#[derive(Debug, PartialEq, Eq, Hash)]
pub struct Secp256r1PublicKey {
    bytes: Vec<u8>,
}

impl View for Secp256r1PublicKey {
    type V = Seq<u8>;

    closed spec fn view(&self) -> Seq<u8> {
        self.bytes@
    }
}

impl Secp256r1PublicKey {
    #[verifier::type_invariant]
    spec fn compressed(self) -> bool {
        self.bytes@.len() == 33
    }

    /// Reads a key from its bytes; `None` where they are no key.
    pub fn from_bytes(bytes: &[u8]) -> (key: Option<Self>)
        ensures
            key is Some <==> secp256r1_key(bytes@) is Some,
            key is Some ==> key->0@ == secp256r1_key(bytes@)->0 && key->0@.len() == 33,
    {
        match read_secp256r1(bytes) {
            Some(bytes) => Some(Secp256r1PublicKey { bytes }),
            None => None,
        }
    }

    /// The bytes of the key.
    pub fn as_bytes(&self) -> (bytes: &[u8])
        ensures
            bytes@ == self@,
            bytes@.len() == 33,
    {
        proof {
            use_type_invariant(self);
        }
        self.bytes.as_slice()
    }
}

impl Clone for Secp256r1PublicKey {
    fn clone(&self) -> (copy: Self)
        ensures
            copy@ == self@,
    {
        proof {
            use_type_invariant(self);
        }
        Secp256r1PublicKey { bytes: slice_to_vec(self.bytes.as_slice()) }
    }
}

} // verus!
