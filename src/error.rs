//! The reasons a manifest cannot be generated. Every one of them ends the run.

use vstd::prelude::*;

verus! {

#[derive(Debug, PartialEq, Eq)]
pub enum GenerateError {
    /// Neither project manifest names a version.
    VersionNotFound,
    /// The build-output directory does not exist; the build has to run first.
    BundleDirNotFound,
    /// The configuration holds no updater public key at any known place.
    PublicKeyNotFound,
    /// The bundle directory holds no installer.
    NoInstallersFound,
    /// No signature file belongs to the platform of the named installer.
    SignatureNotFound(String),
    /// The signer failed to sign the named installer; its diagnostic output is kept.
    SigningFailed(String, String),
    /// The signer succeeded but printed no signature.
    EmptySignature,
    /// The signer rejected the signature of the named installer; its
    /// diagnostic output is kept.
    VerificationFailed(String, String),
    /// A file could not be read, written or walked.
    IoFailure(String),
    /// An input file is not valid JSON.
    MalformedConfig,
    /// The publication time lies outside the representable calendar.
    InvalidTimestamp,
}

} // verus!
