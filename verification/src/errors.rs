use vstd::prelude::*;

verus! {

/// Errors that can end one resolution attempt; each is local to a single
/// handshake and none is fatal to the process.
#[derive(Clone, Copy, Debug, PartialEq, Eq, Structural)]
pub enum ResolutionError {
    /// The handshake carried no server name, so no certificate can be chosen.
    MissingServerName,
    /// The per-hostname cache directory could not be created.
    DirectoryCreationFailed,
    /// Exactly one of the certificate/key files exists on disk; never
    /// auto-repaired, an operator must resolve it.
    InconsistentRecord,
    /// Synthesis of fresh self-signed material failed.
    GenerationFailed,
    /// The certificate file parsed to an empty chain.
    EmptyCertificateChain,
    /// No usable private key was found where exactly one is required.
    NoKeyFound,
    /// More than one private key was found where exactly one is required.
    AmbiguousKey,
    /// The private key is not usable with any supported signature scheme.
    SigningKeyConstructionFailed,
}

/// Errors of the PEM private-key codec.
#[derive(Clone, Copy, Debug, PartialEq, Eq, Structural)]
pub enum CodecError {
    /// The text is not well-formed PEM, so no key could be extracted.
    MalformedPem,
    /// The text holds no PKCS#8 private key.
    NoKeyFound,
    /// The text holds more than one PKCS#8 private key.
    AmbiguousKey,
}

} // verus!
