//! Signing and verifying documents.
//!
//! A signature is made over the canonical text of a document: the JSON text
//! of the document with `null` in the place of its proof. Verifying builds
//! that text again from the document at hand, so whatever was changed in
//! the document after it was signed changes the text that is checked.

use vstd::prelude::*;
use vstd::string::StringSliceAdditionalSpecFns;
use crate::error::{Error, Failure};
use crate::json::json_text;
use crate::json_codec::{credential_json, presentation_json};
use crate::keys::{accepts, ed25519_accepts, ed25519_public_key, ed25519_signature, signature_of};
use crate::model::{
    CredentialModel, PresentationModel, Proof, ProofModel, VerifiableCredential,
    VerifiablePresentation,
};
use crate::time::{Instant, Timestamp};

verus! {

/// The base64 text of a sequence of bytes: the standard alphabet, padded.
pub uninterp spec fn base64_text(bytes: Seq<u8>) -> Seq<char>;

/// The bytes that a base64 text stands for; `None` where the text is not
/// base64 in the standard alphabet with its padding.
pub uninterp spec fn base64_bytes(text: Seq<char>) -> Option<Seq<u8>>;

/// `base64::Engine::encode` of the engine `STANDARD`. The contract names the
/// text and claims that it decodes to the bytes.
#[verifier::external_body]
fn encode_outside(bytes: &[u8]) -> (text: String)
    requires
        bytes@.len() <= 0x1000_0000,
    ensures
        text@ == base64_text(bytes@),
        base64_bytes(text@) == Some(bytes@),
{
    base64::Engine::encode(&base64::engine::general_purpose::STANDARD, bytes)
}

/// `base64::Engine::decode` of the engine `STANDARD`. The contract names the bytes.
#[verifier::external_body]
fn decode_outside(text: &str) -> (bytes: Option<Vec<u8>>)
    ensures
        match bytes {
            Some(bytes) => base64_bytes(text@) == Some(bytes@),
            None => base64_bytes(text@) is None,
        },
{
    base64::Engine::decode(&base64::engine::general_purpose::STANDARD, text).ok()
}

/// The type of the proofs that this library makes.
pub open spec fn proof_type() -> Seq<char> {
    "DataIntegrityProof"@
}

/// The suite of the proofs that this library makes and checks.
pub open spec fn suite() -> Seq<char> {
    "eddsa-rdfc-2022"@
}

/// The purpose of the proofs that this library makes.
pub open spec fn purpose() -> Seq<char> {
    "assertionMethod"@
}

/// The bytes that a credential is signed over: the UTF-8 of the JSON text of
/// the credential without its proof.
pub open spec fn credential_message(credential: CredentialModel) -> Seq<u8> {
    vstd::utf8::encode_utf8(json_text(credential_json(credential.unsigned())))
}

/// The bytes that a presentation is signed over.
pub open spec fn presentation_message(presentation: PresentationModel) -> Seq<u8> {
    vstd::utf8::encode_utf8(json_text(presentation_json(presentation.unsigned())))
}

/// The proof that the key in `private_key` makes over `message` at `now`.
pub open spec fn proof_over(message: Seq<u8>, private_key: Seq<u8>, now: Instant) -> ProofModel {
    ProofModel {
        proof_type: proof_type(),
        created: now,
        cryptosuite: suite(),
        proof_purpose: purpose(),
        proof_value: base64_text(ed25519_signature(private_key, message)),
    }
}

/// What verifying says of a proof, a message and a public key: `Unsigned`
/// where there is no proof; success where the proof names the suite of this
/// library and its value is the base64 of a signature that is accepted;
/// `InvalidSignature` in every other case.
pub open spec fn verdict(attached: Option<ProofModel>, message: Seq<u8>, public_key: Seq<u8>)
    -> Result<(), Failure> {
    match attached {
        None => Err(Failure::Unsigned),
        Some(made) => if made.cryptosuite == suite() && (base64_bytes(made.proof_value) matches Some(
            signature,
        ) && ed25519_accepts(public_key, message, signature)) {
            Ok(())
        } else {
            Err(Failure::InvalidSignature)
        },
    }
}

/// What verifying a credential under a public key says.
pub open spec fn credential_verdict(credential: CredentialModel, public_key: Seq<u8>) -> Result<
    (),
    Failure,
> {
    verdict(credential.proof, credential_message(credential), public_key)
}

/// What verifying a presentation under a public key says.
pub open spec fn presentation_verdict(presentation: PresentationModel, public_key: Seq<u8>)
    -> Result<(), Failure> {
    verdict(presentation.proof, presentation_message(presentation), public_key)
}

/// The credential with the proof that the key makes over it at `now`.
pub open spec fn signed_credential(credential: CredentialModel, private_key: Seq<u8>, now: Instant)
    -> CredentialModel {
    CredentialModel {
        proof: Some(proof_over(credential_message(credential), private_key, now)),
        ..credential
    }
}

/// The presentation with the proof that the key makes over it at `now`.
pub open spec fn signed_presentation(
    presentation: PresentationModel,
    private_key: Seq<u8>,
    now: Instant,
) -> PresentationModel {
    PresentationModel {
        proof: Some(proof_over(presentation_message(presentation), private_key, now)),
        ..presentation
    }
}

/// Makes the proof over a message. Fails with `KeyError` exactly where the
/// private key is rejected. The proof that comes out holds the base64 of a
/// signature of 64 bytes, and is accepted under the public key of the
/// private key.
pub fn make_proof(message: &[u8], private_key: &[u8], now: Timestamp) -> (outcome: Result<
    Proof,
    Error,
>)
    ensures
        match outcome {
            Ok(made) => {
                &&& made@ == proof_over(message@, private_key@, now@)
                &&& ed25519_signature(private_key@, message@).len() == 64
                &&& ed25519_public_key(private_key@) matches Some(key)
                &&& verdict(Some(made@), message@, key) is Ok
            },
            Err(error) => ed25519_public_key(private_key@) is None && error.failure()
                == Failure::KeyError,
        },
{
    match signature_of(private_key, message) {
        Ok(signature) => Ok(
            Proof {
                proof_type: String::from_str("DataIntegrityProof"),
                created: now,
                cryptosuite: String::from_str("eddsa-rdfc-2022"),
                proof_purpose: String::from_str("assertionMethod"),
                proof_value: encode_outside(signature.as_slice()),
            },
        ),
        Err(error) => Err(error),
    }
}

/// Checks a proof against a message and a public key.
pub fn check_proof(attached: &Option<Proof>, message: &[u8], public_key: &[u8]) -> (outcome:
    Result<(), Error>)
    ensures
        match outcome {
            Ok(_) => verdict(attached.deep_view(), message@, public_key@) is Ok,
            Err(error) => verdict(attached.deep_view(), message@, public_key@) == Err::<
                (),
                Failure,
            >(error.failure()),
        },
{
    match attached {
        None => Err(Error::Unsigned),
        Some(made) => {
            let known = made.cryptosuite == String::from_str("eddsa-rdfc-2022");
            if !known {
                return Err(Error::InvalidSignature);
            }
            match decode_outside(made.proof_value.as_str()) {
                Some(signature) => if accepts(public_key, message, signature.as_slice()) {
                    Ok(())
                } else {
                    Err(Error::InvalidSignature)
                },
                None => Err(Error::InvalidSignature),
            }
        },
    }
}

impl Proof {
    /// The signature that the proof carries, as bytes; `None` exactly where
    /// the value of the proof is not base64.
    pub fn signature_bytes(&self) -> (bytes: Option<Vec<u8>>)
        ensures
            match bytes {
                Some(bytes) => base64_bytes(self@.proof_value) == Some(bytes@),
                None => base64_bytes(self@.proof_value) is None,
            },
    {
        decode_outside(self.proof_value.as_str())
    }
}

/// What documents that can be signed have in common: a place for one proof.
pub trait VerifiableFunctions: Sized {
    /// The proof of the document, where it has one.
    spec fn attached(&self) -> Option<ProofModel>;

    /// Takes the proof out of the document. Fails with `Unsigned` where the
    /// document has none.
    fn get_proof(&mut self) -> (outcome: Result<Proof, Error>)
        ensures
            match outcome {
                Ok(made) => old(self).attached() == Some(made@) && final(self).attached()
                    is None,
                Err(error) => old(self).attached() is None && final(self).attached() is None
                    && error.failure() == Failure::Unsigned,
            },
    ;

    /// Puts a proof into the document, in the place of the one it may have.
    fn set_proof(&mut self, made: Proof) -> (outcome: Result<(), Error>)
        ensures
            outcome is Ok,
            final(self).attached() == Some(made@),
    ;
}

impl VerifiableFunctions for VerifiableCredential {
    open spec fn attached(&self) -> Option<ProofModel> {
        self@.proof
    }

    fn get_proof(&mut self) -> (outcome: Result<Proof, Error>)
        ensures
            final(self)@ == old(self)@.unsigned(),
    {
        match self.proof.take() {
            Some(made) => Ok(made),
            None => Err(Error::Unsigned),
        }
    }

    fn set_proof(&mut self, made: Proof) -> (outcome: Result<(), Error>)
        ensures
            final(self)@ == (CredentialModel { proof: Some(made@), ..old(self)@ }),
    {
        self.proof = Some(made);
        Ok(())
    }
}

impl VerifiableFunctions for VerifiablePresentation {
    open spec fn attached(&self) -> Option<ProofModel> {
        self@.proof
    }

    fn get_proof(&mut self) -> (outcome: Result<Proof, Error>)
        ensures
            final(self)@ == old(self)@.unsigned(),
    {
        match self.proof.take() {
            Some(made) => Ok(made),
            None => Err(Error::Unsigned),
        }
    }

    fn set_proof(&mut self, made: Proof) -> (outcome: Result<(), Error>)
        ensures
            final(self)@ == (PresentationModel { proof: Some(made@), ..old(self)@ }),
    {
        self.proof = Some(made);
        Ok(())
    }
}

/// A document without a proof is never verified: the verdict is `Unsigned`,
/// whatever the message and the key.
pub proof fn lemma_unsigned_is_rejected(message: Seq<u8>, public_key: Seq<u8>)
    ensures
        verdict(None, message, public_key) == Err::<(), Failure>(Failure::Unsigned),
{
}

/// Verifying knows three outcomes. Which one it is depends on the document
/// through its proof and its canonical text alone: a signed document whose
/// text the signature is not accepted for gets `InvalidSignature`, whatever
/// was changed in it and whichever key is tried.
pub proof fn lemma_verdict_cases(attached: Option<ProofModel>, message: Seq<u8>, public_key: Seq<u8>)
    ensures
        verdict(attached, message, public_key) is Ok || verdict(attached, message, public_key)
            == Err::<(), Failure>(Failure::Unsigned) || verdict(attached, message, public_key)
            == Err::<(), Failure>(Failure::InvalidSignature),
        attached matches Some(made) ==> (verdict(attached, message, public_key) is Ok <==> (
        made.cryptosuite == suite() && (base64_bytes(made.proof_value) matches Some(signature)
            && ed25519_accepts(public_key, message, signature)))),
        attached matches Some(made) ==> verdict(attached, message, public_key) is Err ==> verdict(
            attached,
            message,
            public_key,
        ) == Err::<(), Failure>(Failure::InvalidSignature),
{
}

impl VerifiableCredential {
    /// The canonical text of the credential: its JSON text with `null` in
    /// the place of its proof.
    pub fn signing_text(&self) -> (text: String)
        ensures
            text@ == json_text(credential_json(self@.unsigned())),
            self@.wf(),
    {
        self.to_json_with(false).to_text()
    }

    /// Signs the credential at the instant `now`: the proof that it may have
    /// is replaced by the one that the key makes over its canonical text.
    /// Fails with `KeyError` exactly where the private key is rejected. The
    /// value of the proof is the base64 of a signature of 64 bytes, and the
    /// signed credential verifies under the public key of the private key.
    pub fn sign_at(self, private_key: &[u8], now: Timestamp) -> (outcome: Result<
        VerifiableCredential,
        Error,
    >)
        ensures
            match outcome {
                Ok(signed) => {
                    &&& signed@ == signed_credential(self@, private_key@, now@)
                    &&& ed25519_signature(private_key@, credential_message(self@)).len() == 64
                    &&& ed25519_public_key(private_key@) matches Some(key)
                    &&& credential_verdict(signed@, key) is Ok
                },
                Err(error) => ed25519_public_key(private_key@) is None && error.failure()
                    == Failure::KeyError,
            },
    {
        let text = self.signing_text();
        match make_proof(text.as_str().as_bytes(), private_key, now) {
            Ok(made) => {
                let mut signed = self;
                signed.proof = Some(made);
                assert(signed@.unsigned() == self@.unsigned());
                Ok(signed)
            },
            Err(error) => Err(error),
        }
    }

    /// Signs the credential at the present instant. See [`Self::sign_at`]:
    /// the outcome is the one of that function at the instant that the proof
    /// records.
    pub fn sign(self, private_key: &[u8]) -> (outcome: Result<VerifiableCredential, Error>)
        ensures
            match outcome {
                Ok(signed) => {
                    &&& signed@.proof matches Some(made)
                    &&& made.created.wf()
                    &&& signed@ == signed_credential(self@, private_key@, made.created)
                    &&& ed25519_signature(private_key@, credential_message(self@)).len() == 64
                    &&& ed25519_public_key(private_key@) matches Some(key)
                    &&& credential_verdict(signed@, key) is Ok
                },
                Err(error) => ed25519_public_key(private_key@) is None && error.failure()
                    == Failure::KeyError,
            },
    {
        self.sign_at(private_key, Timestamp::now())
    }

    /// Verifies that the credential was signed by the owner of the public
    /// key. The credential is left as it is. Succeeds exactly where the
    /// proof names the suite of this library and its value is the base64 of
    /// a signature that is accepted for the canonical text of the credential
    /// at hand; fails with `Unsigned` exactly where there is no proof, and
    /// with `InvalidSignature` in every other case.
    pub fn verify(&self, public_key: &[u8]) -> (outcome: Result<(), Error>)
        ensures
            match outcome {
                Ok(_) => credential_verdict(self@, public_key@) is Ok,
                Err(error) => credential_verdict(self@, public_key@) == Err::<(), Failure>(
                    error.failure(),
                ),
            },
            self@.proof is None ==> (outcome matches Err(error) && error.failure()
                == Failure::Unsigned),
    {
        let text = self.signing_text();
        check_proof(&self.proof, text.as_str().as_bytes(), public_key)
    }
}

impl VerifiablePresentation {
    /// The canonical text of the presentation: its JSON text with `null` in
    /// the place of its proof.
    pub fn signing_text(&self) -> (text: String)
        ensures
            text@ == json_text(presentation_json(self@.unsigned())),
            self@.wf(),
    {
        self.to_json_with(false).to_text()
    }

    /// Signs the presentation at the instant `now`. Fails with `KeyError`
    /// exactly where the private key is rejected. The value of the proof is
    /// the base64 of a signature of 64 bytes, and the signed presentation
    /// verifies under the public key of the private key.
    pub fn sign_at(self, private_key: &[u8], now: Timestamp) -> (outcome: Result<
        VerifiablePresentation,
        Error,
    >)
        ensures
            match outcome {
                Ok(signed) => {
                    &&& signed@ == signed_presentation(self@, private_key@, now@)
                    &&& ed25519_signature(private_key@, presentation_message(self@)).len() == 64
                    &&& ed25519_public_key(private_key@) matches Some(key)
                    &&& presentation_verdict(signed@, key) is Ok
                },
                Err(error) => ed25519_public_key(private_key@) is None && error.failure()
                    == Failure::KeyError,
            },
    {
        let text = self.signing_text();
        match make_proof(text.as_str().as_bytes(), private_key, now) {
            Ok(made) => {
                let mut signed = self;
                signed.proof = Some(made);
                assert(signed@.unsigned() == self@.unsigned());
                Ok(signed)
            },
            Err(error) => Err(error),
        }
    }

    /// Signs the presentation at the present instant. See [`Self::sign_at`].
    pub fn sign(self, private_key: &[u8]) -> (outcome: Result<VerifiablePresentation, Error>)
        ensures
            match outcome {
                Ok(signed) => {
                    &&& signed@.proof matches Some(made)
                    &&& made.created.wf()
                    &&& signed@ == signed_presentation(self@, private_key@, made.created)
                    &&& ed25519_signature(private_key@, presentation_message(self@)).len() == 64
                    &&& ed25519_public_key(private_key@) matches Some(key)
                    &&& presentation_verdict(signed@, key) is Ok
                },
                Err(error) => ed25519_public_key(private_key@) is None && error.failure()
                    == Failure::KeyError,
            },
    {
        self.sign_at(private_key, Timestamp::now())
    }

    /// Verifies that the presentation was signed by the owner of the public
    /// key. See [`VerifiableCredential::verify`].
    pub fn verify(&self, public_key: &[u8]) -> (outcome: Result<(), Error>)
        ensures
            match outcome {
                Ok(_) => presentation_verdict(self@, public_key@) is Ok,
                Err(error) => presentation_verdict(self@, public_key@) == Err::<(), Failure>(
                    error.failure(),
                ),
            },
            self@.proof is None ==> (outcome matches Err(error) && error.failure()
                == Failure::Unsigned),
    {
        let text = self.signing_text();
        check_proof(&self.proof, text.as_str().as_bytes(), public_key)
    }
}

} // verus!
