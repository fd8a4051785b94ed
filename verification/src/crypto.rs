//! Encryption algorithms and signature verification results.
//!
//! The types encode policy decisions: which ciphers may be read and written,
//! and what a signature check has actually proven.
use vstd::prelude::*;

verus! {

/// Encryption algorithms defined by the PDF standard security handler.
#[derive(Debug, Clone, Copy, PartialEq, Eq, Structural)]
#[non_exhaustive]
pub enum Algorithm {
    /// RC4 with a 40-bit key. Broken. Read-only support for legacy documents.
    Rc4_40,
    /// RC4 with a 128-bit key. Broken. Read-only support for legacy documents.
    Rc4_128,
    /// AES-128. Read-only support.
    Aes128,
    /// AES-256. The only algorithm this tool will write.
    Aes256,
}

impl Algorithm {
    /// New documents may be encrypted with this algorithm: AES-256 only.
    pub open spec fn spec_can_write(self) -> bool {
        self == Algorithm::Aes256
    }

    /// The algorithm is cryptographically broken: both RC4 variants.
    pub open spec fn spec_is_broken(self) -> bool {
        self == Algorithm::Rc4_40 || self == Algorithm::Rc4_128
    }

    /// Whether documents using this algorithm can be opened.
    ///
    /// Everything is readable: the weakness is in the document, not in the act
    /// of reading it.
    pub fn can_read(self) -> (readable: bool)
        ensures
            readable,
    {
        true
    }

    /// Whether new documents may be encrypted with this algorithm.
    ///
    /// Only AES-256.
    pub fn can_write(self) -> (writable: bool)
        ensures
            writable == self.spec_can_write(),
    {
        match self {
            Algorithm::Aes256 => true,
            _ => false,
        }
    }

    /// Whether this algorithm is considered cryptographically broken.
    pub fn is_broken(self) -> (broken: bool)
        ensures
            broken == self.spec_is_broken(),
    {
        match self {
            Algorithm::Rc4_40 | Algorithm::Rc4_128 => true,
            _ => false,
        }
    }
}

/// No broken cipher is ever offered for writing.
pub proof fn law_broken_algorithms_are_never_written(algorithm: Algorithm)
    ensures
        algorithm.spec_is_broken() ==> !algorithm.spec_can_write(),
{
}

/// PAdES conformance levels for digital signatures.
#[derive(Debug, Clone, Copy, PartialEq, Eq, PartialOrd, Ord, Structural)]
#[non_exhaustive]
pub enum SignatureLevel {
    /// Basic: a PKCS#7 detached signature over the document byte ranges.
    BasicB,
    /// Basic plus an RFC 3161 trusted timestamp.
    BasicT,
}

/// The result of verifying a signature.
///
/// Deliberately not a boolean: "valid" collapses several independent
/// questions.
#[derive(Debug, Clone, PartialEq, Eq, Structural)]
pub struct Verification {
    /// The signed digest matches the document's current bytes.
    pub bytes_unmodified: bool,
    /// The signed byte range covers the whole document.
    ///
    /// When false, content was appended after signing — the
    /// incremental-update attack.
    pub covers_whole_document: bool,
    /// The signing certificate chains to a trusted root.
    pub chain_trusted: bool,
    /// Revocation status was checked and the certificate was not revoked.
    pub revocation_checked: bool,
    /// A trusted timestamp was present and valid.
    pub timestamp_valid: bool,
}

impl Verification {
    /// Every check passed.
    pub open spec fn spec_fully_verified(&self) -> bool {
        self.bytes_unmodified && self.covers_whole_document && self.chain_trusted
            && self.revocation_checked && self.timestamp_valid
    }

    /// The signature is valid over bytes that do not cover the whole document.
    pub open spec fn spec_needs_warning(&self) -> bool {
        self.bytes_unmodified && !self.covers_whole_document
    }

    /// Whether every check passed.
    ///
    /// Callers should still show the individual fields.
    pub fn fully_verified(&self) -> (verified: bool)
        ensures
            verified == self.spec_fully_verified(),
    {
        self.bytes_unmodified && self.covers_whole_document && self.chain_trusted
            && self.revocation_checked && self.timestamp_valid
    }

    /// Whether the user must be warned, even though cryptography checks out.
    ///
    /// The dangerous case: the signature is mathematically valid but does not
    /// cover the whole document.
    pub fn needs_warning(&self) -> (warn: bool)
        ensures
            warn == self.spec_needs_warning(),
    {
        self.bytes_unmodified && !self.covers_whole_document
    }
}

/// A signature that needs a warning is never reported as fully verified.
pub proof fn law_warning_excludes_full_verification(verification: Verification)
    ensures
        verification.spec_needs_warning() ==> !verification.spec_fully_verified(),
{
}

} // verus!
