//! Lifecycle bookkeeping for the native composer and translation of its
//! failure signalling into result values.
//!
//! The native library signals through two independent channels: an optional
//! diagnostic message, and a null primary output where an operation produces
//! a handle or a buffer. An embedding layer performs the foreign calls; each
//! method here takes the raw outcome of one call as plain values, accounts
//! for the state change, and translates the two channels into a single
//! result, attaching the diagnostic to the failure so a caller can act on it
//! programmatically.
//!
//! The native library's thread safety is unspecified, so a composer must not
//! be driven by concurrent calls; callers needing parallelism create
//! independent composers.

use vstd::prelude::*;

use crate::codec;
use crate::codec::DecodeError;

verus! {

/// Which operation failed, mirroring the native entry points that can fail.
#[derive(Clone, Copy, Debug, PartialEq, Eq, Structural)]
pub enum ErrorKind {
    /// The native side could not allocate a new composer.
    CreateFailed,
    /// Proof construction returned no output buffer.
    ProofCreationFailed,
    /// Serializing the verification key returned no output buffer.
    KeyRetrievalFailed,
    /// A verifier contract was requested before any verification key was
    /// established.
    NoVerificationKey,
    /// Generating the verifier contract returned no output text.
    SolidityVerifierFailed,
    /// The verifier contract's bytes are not valid text.
    InvalidUtf8,
    /// Serializing the proof into field elements returned no output buffer.
    ProofFieldsFailed,
    /// Serializing the verification key into field elements left at least
    /// one of its two outputs empty.
    KeyFieldsFailed,
    /// The circuit-size query signalled a fault.
    CircuitSizesFailed,
    /// A returned buffer does not follow the shared framing.
    MalformedBuffer,
}

/// A failed operation: which one, and the native side's explanation when it
/// gave one.
#[derive(Debug)]
pub struct ComposerError {
    /// The operation that failed.
    pub kind: ErrorKind,
    /// The diagnostic message the native side emitted, if any.
    pub diagnostic: Option<String>,
}

/// The characters a byte sequence decodes to when it is valid UTF-8, and
/// nothing when it is not. The decoding is a function of the bytes alone.
pub uninterp spec fn utf8_decode(bytes: Seq<u8>) -> Option<Seq<char>>;

/// Relies on `String::from_utf8`: returns the decoded string exactly when
/// the bytes are valid UTF-8, and an error otherwise; the outcome depends on
/// the bytes alone.
#[verifier::external_body]
fn decode_utf8(bytes: Vec<u8>) -> (r: Option<String>)
    ensures
        r is Some <==> utf8_decode(bytes@) is Some,
        r is Some ==> r->0@ == utf8_decode(bytes@)->0,
{
    match String::from_utf8(bytes) {
        Ok(s) => Some(s),
        Err(_) => None,
    }
}

/// The binding's record of one native composer.
///
/// A value of this type stands for one live native handle: it exists from
/// the moment the native side hands out a non-null handle, tracks which keys
/// have been established, and is marked destroyed exactly once when the
/// handle is released. No operation may be invoked after that.
pub struct AcirComposer {
    proving_key_ready: bool,
    verification_key_ready: bool,
    destroyed: bool,
}

impl AcirComposer {
    /// Whether a proving key has been initialized for this composer.
    pub closed spec fn proving_key_ready(&self) -> bool {
        self.proving_key_ready
    }

    /// Whether a verification key has been derived or loaded.
    pub closed spec fn verification_key_ready(&self) -> bool {
        self.verification_key_ready
    }

    /// Whether the native handle has been released.
    pub closed spec fn destroyed(&self) -> bool {
        self.destroyed
    }

    /// A composer may be operated on only while its handle has not been
    /// released.
    pub open spec fn valid(&self) -> bool {
        !self.destroyed()
    }

    /// Accounts for the creation call: the native side was asked for a new
    /// composer and either handed out a handle (`handle_created`) or not.
    /// A missing handle is the authoritative failure signal; the diagnostic,
    /// if any, is attached to the failure rather than logged.
    pub fn new(handle_created: bool, diagnostic: Option<String>) -> (r: Result<
        AcirComposer,
        ComposerError,
    >)
        ensures
            r is Ok <==> handle_created,
            r is Ok ==> r->Ok_0.valid() && !r->Ok_0.proving_key_ready()
                && !r->Ok_0.verification_key_ready(),
            r is Err ==> r->Err_0.kind == ErrorKind::CreateFailed && r->Err_0.diagnostic
                == diagnostic,
    {
        if handle_created {
            Ok(
                AcirComposer {
                    proving_key_ready: false,
                    verification_key_ready: false,
                    destroyed: false,
                },
            )
        } else {
            Err(ComposerError { kind: ErrorKind::CreateFailed, diagnostic })
        }
    }

    /// Accounts for the proving-key initialization call. The native side may
    /// emit a message without invalidating the handle, so the message is
    /// handed back as an advisory rather than a failure, and the composer
    /// stays valid.
    pub fn init_proving_key(&mut self, diagnostic: Option<String>) -> (advisory: Option<String>)
        requires
            old(self).valid(),
        ensures
            final(self).valid(),
            final(self).proving_key_ready(),
            final(self).verification_key_ready() == old(self).verification_key_ready(),
            advisory == diagnostic,
    {
        self.proving_key_ready = true;
        diagnostic
    }

    /// Accounts for the verification-key derivation call, which derives the
    /// key from the proving-key state. As with proving-key initialization,
    /// the native message is advisory.
    pub fn init_verification_key(&mut self, diagnostic: Option<String>) -> (advisory: Option<
        String,
    >)
        requires
            old(self).valid(),
            old(self).proving_key_ready(),
        ensures
            final(self).valid(),
            final(self).verification_key_ready(),
            final(self).proving_key_ready(),
            advisory == diagnostic,
    {
        self.verification_key_ready = true;
        diagnostic
    }

    /// Accounts for loading a previously serialized verification key, which
    /// establishes the verification-key state without a proving key.
    pub fn load_verification_key(&mut self, diagnostic: Option<String>) -> (advisory: Option<
        String,
    >)
        requires
            old(self).valid(),
        ensures
            final(self).valid(),
            final(self).verification_key_ready(),
            final(self).proving_key_ready() == old(self).proving_key_ready(),
            advisory == diagnostic,
    {
        self.verification_key_ready = true;
        diagnostic
    }

    /// Translates the outcome of the proof-creation call. Proof creation
    /// needs an initialized proving key. A null output is the failure
    /// signal; a returned buffer is validated against the shared framing and
    /// its payload is the proof.
    pub fn create_proof(&self, native_output: Option<Vec<u8>>, diagnostic: Option<String>) -> (r:
        Result<Vec<u8>, ComposerError>)
        requires
            self.valid(),
            self.proving_key_ready(),
        ensures
            r is Ok <==> native_output is Some && codec::well_framed(native_output->0@),
            r is Ok ==> r->Ok_0@ == codec::payload(native_output->0@),
            native_output is None ==> r is Err && r->Err_0.kind == ErrorKind::ProofCreationFailed
                && r->Err_0.diagnostic == diagnostic,
            native_output is Some && !codec::well_framed(native_output->0@) ==> r is Err
                && r->Err_0.kind == ErrorKind::MalformedBuffer && r->Err_0.diagnostic
                == diagnostic,
    {
        match native_output {
            None => Err(ComposerError { kind: ErrorKind::ProofCreationFailed, diagnostic }),
            Some(buf) => match codec::unframe(buf.as_slice()) {
                Ok(proof_bytes) => Ok(proof_bytes),
                Err(_) => Err(ComposerError { kind: ErrorKind::MalformedBuffer, diagnostic }),
            },
        }
    }

    /// Translates the outcome of the verification-key serialization call: a
    /// null output is the failure signal, and a returned buffer is validated
    /// against the shared framing; its payload is the serialized key.
    pub fn get_verification_key(&self, native_output: Option<Vec<u8>>, diagnostic: Option<String>)
        -> (r: Result<Vec<u8>, ComposerError>)
        requires
            self.valid(),
        ensures
            r is Ok <==> native_output is Some && codec::well_framed(native_output->0@),
            r is Ok ==> r->Ok_0@ == codec::payload(native_output->0@),
            native_output is None ==> r is Err && r->Err_0.kind == ErrorKind::KeyRetrievalFailed
                && r->Err_0.diagnostic == diagnostic,
            native_output is Some && !codec::well_framed(native_output->0@) ==> r is Err
                && r->Err_0.kind == ErrorKind::MalformedBuffer && r->Err_0.diagnostic
                == diagnostic,
    {
        match native_output {
            None => Err(ComposerError { kind: ErrorKind::KeyRetrievalFailed, diagnostic }),
            Some(buf) => match codec::unframe(buf.as_slice()) {
                Ok(key_bytes) => Ok(key_bytes),
                Err(_) => Err(ComposerError { kind: ErrorKind::MalformedBuffer, diagnostic }),
            },
        }
    }

    /// Translates the outcome of the proof-verification call. An invalid
    /// proof is never an error: the native verdict is returned as it stands,
    /// whatever diagnostic accompanied it, and the verdict is never promoted
    /// to success by the binding.
    pub fn verify_proof(&self, verified: bool) -> (r: bool)
        requires
            self.valid(),
        ensures
            r == verified,
    {
        verified
    }

    /// Translates the outcome of the verifier-contract generation call.
    /// Before any verification key is established the request is refused
    /// outright. Otherwise a null output is the failure signal, and the
    /// returned bytes must decode as text; bytes that do not are a distinct,
    /// reported error.
    pub fn get_solidity_verifier(
        &self,
        native_output: Option<Vec<u8>>,
        diagnostic: Option<String>,
    ) -> (r: Result<String, ComposerError>)
        requires
            self.valid(),
        ensures
            !self.verification_key_ready() ==> r is Err && r->Err_0.kind
                == ErrorKind::NoVerificationKey,
            self.verification_key_ready() && native_output is None ==> r is Err && r->Err_0.kind
                == ErrorKind::SolidityVerifierFailed && r->Err_0.diagnostic == diagnostic,
            self.verification_key_ready() && native_output is Some ==> {
                &&& r is Ok <==> utf8_decode(native_output->0@) is Some
                &&& r is Ok ==> r->Ok_0@ == utf8_decode(native_output->0@)->0
                &&& r is Err ==> r->Err_0.kind == ErrorKind::InvalidUtf8 && r->Err_0.diagnostic
                    == diagnostic
            },
    {
        if !self.verification_key_ready {
            return Err(ComposerError { kind: ErrorKind::NoVerificationKey, diagnostic: None });
        }
        match native_output {
            None => Err(ComposerError { kind: ErrorKind::SolidityVerifierFailed, diagnostic }),
            Some(bytes) => match decode_utf8(bytes) {
                Some(text) => Ok(text),
                None => Err(ComposerError { kind: ErrorKind::InvalidUtf8, diagnostic }),
            },
        }
    }

    /// Translates the outcome of serializing a proof into field elements: a
    /// null output is the failure signal, and a returned buffer is validated
    /// against the shared framing.
    pub fn serialize_proof_into_fields(
        &self,
        native_output: Option<Vec<u8>>,
        diagnostic: Option<String>,
    ) -> (r: Result<Vec<u8>, ComposerError>)
        requires
            self.valid(),
        ensures
            r is Ok <==> native_output is Some && codec::well_framed(native_output->0@),
            r is Ok ==> r->Ok_0@ == codec::payload(native_output->0@),
            native_output is None ==> r is Err && r->Err_0.kind == ErrorKind::ProofFieldsFailed
                && r->Err_0.diagnostic == diagnostic,
            native_output is Some && !codec::well_framed(native_output->0@) ==> r is Err
                && r->Err_0.kind == ErrorKind::MalformedBuffer && r->Err_0.diagnostic
                == diagnostic,
    {
        match native_output {
            None => Err(ComposerError { kind: ErrorKind::ProofFieldsFailed, diagnostic }),
            Some(buf) => match codec::unframe(buf.as_slice()) {
                Ok(field_bytes) => Ok(field_bytes),
                Err(_) => Err(ComposerError { kind: ErrorKind::MalformedBuffer, diagnostic }),
            },
        }
    }

    /// Translates the outcome of serializing the verification key into field
    /// elements, which produces two buffers: the key's elements and the
    /// key's hash. Success needs both outputs present and well framed;
    /// either one missing is a failure, with no asymmetry between the two.
    pub fn serialize_verification_key_into_fields(
        &self,
        vk_output: Option<Vec<u8>>,
        hash_output: Option<Vec<u8>>,
        diagnostic: Option<String>,
    ) -> (r: Result<(Vec<u8>, Vec<u8>), ComposerError>)
        requires
            self.valid(),
        ensures
            r is Ok <==> vk_output is Some && hash_output is Some && codec::well_framed(
                vk_output->0@,
            ) && codec::well_framed(hash_output->0@),
            r is Ok ==> r->Ok_0.0@ == codec::payload(vk_output->0@) && r->Ok_0.1@
                == codec::payload(hash_output->0@),
            vk_output is None || hash_output is None ==> r is Err && r->Err_0.kind
                == ErrorKind::KeyFieldsFailed && r->Err_0.diagnostic == diagnostic,
            r is Err && vk_output is Some && hash_output is Some ==> r->Err_0.kind
                == ErrorKind::MalformedBuffer && r->Err_0.diagnostic == diagnostic,
    {
        match (vk_output, hash_output) {
            (Some(vk_buf), Some(hash_buf)) => {
                match (codec::unframe(vk_buf.as_slice()), codec::unframe(hash_buf.as_slice())) {
                    (Ok(vk_bytes), Ok(hash_bytes)) => Ok((vk_bytes, hash_bytes)),
                    _ => Err(ComposerError { kind: ErrorKind::MalformedBuffer, diagnostic }),
                }
            },
            _ => Err(ComposerError { kind: ErrorKind::KeyFieldsFailed, diagnostic }),
        }
    }

    /// Marks the native handle released. This is the one transition out of
    /// the valid states, and its precondition makes releasing a handle twice
    /// unprovable: the embedding layer releases the handle exactly once,
    /// whichever path ends the composer's life.
    pub fn delete(&mut self)
        requires
            old(self).valid(),
        ensures
            final(self).destroyed(),
            !final(self).valid(),
    {
        self.destroyed = true;
    }

    /// Whether a proving key has been initialized, as an observable value.
    pub fn is_proving_key_ready(&self) -> (r: bool)
        ensures
            r == self.proving_key_ready(),
    {
        self.proving_key_ready
    }

    /// Whether a verification key has been established, as an observable
    /// value.
    pub fn is_verification_key_ready(&self) -> (r: bool)
        ensures
            r == self.verification_key_ready(),
    {
        self.verification_key_ready
    }

    /// Whether the native handle has been released, as an observable value.
    pub fn is_destroyed(&self) -> (r: bool)
        ensures
            r == self.destroyed(),
    {
        self.destroyed
    }
}

/// A destroyed composer admits no further operation: every operation,
/// destruction included, requires the composer to be valid, and a destroyed
/// composer is not. Together with `delete`'s postcondition this makes the
/// release of the native handle an exactly-once event.
pub proof fn lemma_no_operation_after_delete(c: AcirComposer)
    requires
        c.destroyed(),
    ensures
        !c.valid(),
{
}

} // verus!
