//! Intel SGX remote attestation: the five-message protocol (MSG0..MSG4)
//! between a Service Provider, a Client host and an attested Enclave.
//!
//! The library holds the protocol logic: the canonical wire codec, the
//! KDK -> (SMK, SK, MK, VK) derivation tree, the authenticated
//! Diffie-Hellman exchange, and the verification rules each role applies.
//! Stream and collaborator I/O (AESM, IAS, file loading) stays with the
//! caller, which hands the library plain values.

use vstd::prelude::*;

pub mod bytes;
pub mod msg;
pub mod codec;
pub mod crypto;
pub mod kdf;
pub mod dhke;
pub mod client;
pub mod enclave;
pub mod sp;

verus! {

/// Failure kinds of an attestation session, one per protocol rule that can
/// reject. Every error aborts the session; nothing is retried.
#[derive(Clone, Copy, Debug, PartialEq, Eq, Structural)]
pub enum RaError {
    /// Stream or collaborator transport failure (surfaced by the caller).
    IoError,
    /// Malformed key material, wire encoding, or primitive failure.
    CryptoError,
    /// ECDSA verification failed on MSG2.
    SignatureInvalid,
    /// MAC check or verification-digest mismatch.
    IntegrityError,
    /// QE report local-attestation check failed.
    LocalAttestation,
    /// Enclave identity did not match the expected SIGSTRUCT.
    SigstructMismatched,
    /// DEBUG attribute set while running a release build.
    EnclaveInDebugMode,
    /// MSG4 verdict negative on the enclave.
    EnclaveNotTrusted,
    /// MSG4 verdict negative on the PSE manifest.
    PseNotTrusted,
    /// IAS surfaced a failure.
    IasError,
    /// AESM surfaced a failure.
    AesmError,
    /// Report data handed to quote generation exceeds 64 bytes.
    ReportDataTooLong,
}

} // verus!
