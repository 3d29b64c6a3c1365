//! Ed25519 keys and signatures, as `ring` makes and checks them.

use vstd::prelude::*;
use crate::error::{Error, Failure};

verus! {

/// The public key of the pair that `ring` reads from a PKCS#8 document;
/// `None` where it rejects the document.
pub uninterp spec fn ed25519_public_key(pkcs8: Seq<u8>) -> Option<Seq<u8>>;

/// The signature that the pair in a PKCS#8 document makes over a message.
pub uninterp spec fn ed25519_signature(pkcs8: Seq<u8>, message: Seq<u8>) -> Seq<u8>;

/// Whether `ring` takes the signature for one over the message by the owner
/// of the public key.
pub uninterp spec fn ed25519_accepts(
    public_key: Seq<u8>,
    message: Seq<u8>,
    signature: Seq<u8>,
) -> bool;

/// `ring::signature::Ed25519KeyPair::from_pkcs8`, then the public key of the
/// pair. The contract names the key.
#[verifier::external_body]
fn public_key_outside(pkcs8: &[u8]) -> (outcome: Result<Vec<u8>, String>)
    ensures
        match outcome {
            Ok(key) => ed25519_public_key(pkcs8@) == Some(key@),
            Err(_) => ed25519_public_key(pkcs8@) is None,
        },
{
    match ring::signature::Ed25519KeyPair::from_pkcs8(pkcs8) {
        Ok(pair) => Ok(ring::signature::KeyPair::public_key(&pair).as_ref().to_vec()),
        Err(error) => Err(error.to_string()),
    }
}

/// `ring::signature::Ed25519KeyPair::from_pkcs8`, then `sign`. It fails
/// exactly where the document is rejected. The contract names the signature,
/// which by RFC 8032 depends on the key and the message alone and has 64
/// bytes, and claims that `ring` accepts it under the public key of the pair.
#[verifier::external_body]
fn sign_outside(pkcs8: &[u8], message: &[u8]) -> (outcome: Result<Vec<u8>, String>)
    ensures
        match outcome {
            Ok(signature) => {
                &&& ed25519_public_key(pkcs8@) matches Some(key)
                &&& ed25519_accepts(key, message@, signature@)
                &&& signature@ == ed25519_signature(pkcs8@, message@)
                &&& signature@.len() == 64
            },
            Err(_) => ed25519_public_key(pkcs8@) is None,
        },
{
    match ring::signature::Ed25519KeyPair::from_pkcs8(pkcs8) {
        Ok(pair) => Ok(pair.sign(message).as_ref().to_vec()),
        Err(error) => Err(error.to_string()),
    }
}

/// `ring::signature::UnparsedPublicKey::verify` with the algorithm
/// `ED25519`. The contract names the answer.
#[verifier::external_body]
fn verify_outside(public_key: &[u8], message: &[u8], signature: &[u8]) -> (accepted: bool)
    ensures
        accepted == ed25519_accepts(public_key@, message@, signature@),
{
    ring::signature::UnparsedPublicKey::new(&ring::signature::ED25519, public_key).verify(
        message,
        signature,
    ).is_ok()
}

/// `ring::signature::Ed25519KeyPair::generate_pkcs8` with the system's
/// random numbers. Whatever comes out is a document that `from_pkcs8` reads.
#[verifier::external_body]
fn generate_outside() -> (outcome: Result<Vec<u8>, String>)
    ensures
        outcome matches Ok(pkcs8) ==> ed25519_public_key(pkcs8@) is Some,
{
    match ring::signature::Ed25519KeyPair::generate_pkcs8(&ring::rand::SystemRandom::new()) {
        Ok(document) => Ok(document.as_ref().to_vec()),
        Err(error) => Err(error.to_string()),
    }
}

/// The public key of the pair in a PKCS#8 document. Fails with `KeyError`
/// exactly where `ring` rejects the document.
pub fn public_key_of(private_key: &[u8]) -> (outcome: Result<Vec<u8>, Error>)
    ensures
        match outcome {
            Ok(key) => ed25519_public_key(private_key@) == Some(key@),
            Err(error) => ed25519_public_key(private_key@) is None && error.failure()
                == Failure::KeyError,
        },
{
    match public_key_outside(private_key) {
        Ok(key) => Ok(key),
        Err(reason) => Err(Error::KeyError(reason)),
    }
}

/// The signature of the pair in a PKCS#8 document over a message. Fails with
/// `KeyError` exactly where `ring` rejects the document.
pub fn signature_of(private_key: &[u8], message: &[u8]) -> (outcome: Result<Vec<u8>, Error>)
    ensures
        match outcome {
            Ok(signature) => {
                &&& ed25519_public_key(private_key@) matches Some(key)
                &&& ed25519_accepts(key, message@, signature@)
                &&& signature@ == ed25519_signature(private_key@, message@)
                &&& signature@.len() == 64
            },
            Err(error) => ed25519_public_key(private_key@) is None && error.failure()
                == Failure::KeyError,
        },
{
    match sign_outside(private_key, message) {
        Ok(signature) => Ok(signature),
        Err(reason) => Err(Error::KeyError(reason)),
    }
}

/// Whether the signature is one over the message by the owner of the public key.
pub fn accepts(public_key: &[u8], message: &[u8], signature: &[u8]) -> (accepted: bool)
    ensures
        accepted == ed25519_accepts(public_key@, message@, signature@),
{
    verify_outside(public_key, message, signature)
}

/// A copy of a sequence of bytes.
pub fn copy_bytes(bytes: &Vec<u8>) -> (copy: Vec<u8>)
    ensures
        copy@ == bytes@,
{
    let mut copy: Vec<u8> = Vec::new();
    let mut i: usize = 0;
    while i < bytes.len()
        invariant
            i <= bytes.len(),
            copy@ == bytes@.take(i as int),
        decreases bytes.len() - i,
    {
        copy.push(bytes[i]);
        assert(bytes@.take(i + 1) =~= bytes@.take(i as int).push(bytes@[i as int]));
        i += 1;
    }
    assert(bytes@.take(bytes.len() as int) =~= bytes@);
    copy
}

/// A private key as a PKCS#8 document, and the public key that goes with it.
#[derive(Clone, Debug)]
pub struct SignatureKeyPair {
    pub private_key: Vec<u8>,
    pub public_key: Vec<u8>,
}

impl SignatureKeyPair {
    /// The public key is the one that `ring` reads from the private key.
    pub open spec fn wf(&self) -> bool {
        ed25519_public_key(self.private_key@) == Some(self.public_key@)
    }

    /// The pair of a PKCS#8 document. Fails with `KeyError` exactly where
    /// `ring` rejects the document.
    pub fn from_pkcs8(private_key: Vec<u8>) -> (outcome: Result<SignatureKeyPair, Error>)
        ensures
            match outcome {
                Ok(pair) => pair.private_key@ == private_key@ && pair.wf(),
                Err(error) => ed25519_public_key(private_key@) is None && error.failure()
                    == Failure::KeyError,
            },
    {
        match public_key_of(private_key.as_slice()) {
            Ok(public_key) => Ok(SignatureKeyPair { private_key, public_key }),
            Err(error) => Err(error),
        }
    }

    /// A fresh pair, from the system's random numbers. A failure is a `KeyError`.
    pub fn new() -> (outcome: Result<SignatureKeyPair, Error>)
        ensures
            match outcome {
                Ok(pair) => pair.wf(),
                Err(error) => error.failure() == Failure::KeyError,
            },
    {
        match generate_outside() {
            Ok(private_key) => SignatureKeyPair::from_pkcs8(private_key),
            Err(reason) => Err(Error::KeyError(reason)),
        }
    }

    /// The public key.
    pub fn public_key(&self) -> (key: Vec<u8>)
        ensures
            key@ == self.public_key@,
    {
        copy_bytes(&self.public_key)
    }

    /// The private key, as a PKCS#8 document.
    pub fn private_key(&self) -> (key: Vec<u8>)
        ensures
            key@ == self.private_key@,
    {
        copy_bytes(&self.private_key)
    }
}

/// A fresh private key as a PKCS#8 document, and its public key. A failure is
/// a `KeyError`.
pub fn gen_keys() -> (outcome: Result<(Vec<u8>, Vec<u8>), Error>)
    ensures
        match outcome {
            Ok((private_key, public_key)) => ed25519_public_key(private_key@) == Some(
                public_key@,
            ),
            Err(error) => error.failure() == Failure::KeyError,
        },
{
    match SignatureKeyPair::new() {
        Ok(pair) => Ok((pair.private_key, pair.public_key)),
        Err(error) => Err(error),
    }
}

} // verus!
