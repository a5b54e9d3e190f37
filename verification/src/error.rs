//! The error type shared by the whole library.

use vstd::prelude::*;

verus! {

/// What went wrong, independent of the wording of the message.
#[derive(Debug, Clone, Copy, PartialEq, Eq, Structural)]
pub enum ErrorKind {
    /// No more specific kind applies.
    Other,
    /// A signature header that is not `sha1=` followed by forty hex digits.
    MalformedSignature,
    /// The cryptographic backend could not build a key or compute a digest.
    CryptoBackend,
    /// A JSON document could not be read or written.
    Json,
    /// An HTTP exchange failed before a usable response arrived.
    Transport,
}

/// `hex::FromHexError`, the error of `hex::decode`. Opaque here: the library
/// only carries it and asks it for its text.
#[verifier::external_type_specification]
#[verifier::external_body]
pub struct ExFromHexError(hex::FromHexError);

/// `openssl::error::ErrorStack`, the error of every fallible OpenSSL call.
/// Opaque here: the library only carries it and asks it for its text.
#[verifier::external_type_specification]
#[verifier::external_body]
pub struct ExErrorStack(openssl::error::ErrorStack);

/// `serde_json::Error`, the error of reading or writing JSON. Opaque here:
/// the library only carries it and asks it for its text.
#[verifier::external_type_specification]
#[verifier::external_body]
pub struct ExJsonError(serde_json::Error);

/// `reqwest::Error`, the error of an HTTP exchange. Opaque here: the library
/// only carries it and asks it for its text.
#[verifier::external_type_specification]
#[verifier::external_body]
pub struct ExTransportError(reqwest::Error);

/// An error of the library: a kind to branch on, and a message for people.
#[derive(Debug)]
pub struct OctokitError {
    kind: ErrorKind,
    details: String,
}

impl OctokitError {
    /// The kind of this error, for contracts.
    pub closed spec fn spec_kind(&self) -> ErrorKind {
        self.kind
    }

    /// The message of this error, for contracts.
    pub closed spec fn spec_details(&self) -> Seq<char> {
        self.details@
    }

    /// An error of kind `Other` with the given message.
    pub fn new(msg: &str) -> (e: OctokitError)
        ensures
            e.spec_kind() == ErrorKind::Other,
            e.spec_details() == msg@,
    {
        OctokitError { kind: ErrorKind::Other, details: msg.to_string() }
    }

    /// An error of the given kind with the given message.
    pub fn with_kind(kind: ErrorKind, msg: &str) -> (e: OctokitError)
        ensures
            e.spec_kind() == kind,
            e.spec_details() == msg@,
    {
        OctokitError { kind, details: msg.to_string() }
    }

    /// The kind of this error.
    #[verifier::when_used_as_spec(spec_kind)]
    pub fn kind(&self) -> (k: ErrorKind)
        ensures
            k == self.spec_kind(),
    {
        self.kind
    }

    /// The message of this error.
    pub fn description(&self) -> (msg: &str)
        ensures
            msg@ == self.spec_details(),
    {
        self.details.as_str()
    }

    /// The message of this error, as an owned string.
    pub fn to_string(&self) -> (msg: String)
        ensures
            msg@ == self.spec_details(),
    {
        self.details.clone()
    }
}

/// A hex decoding failure becomes a `MalformedSignature` error that carries
/// the decoder's own wording.
impl From<hex::FromHexError> for OctokitError {
    fn from(err: hex::FromHexError) -> (e: OctokitError)
        ensures
            e.spec_kind() == ErrorKind::MalformedSignature,
    {
        OctokitError { kind: ErrorKind::MalformedSignature, details: err.to_string() }
    }
}

/// The conversion is specified by its `ensures` alone: the message is the
/// decoder's and is not modelled.
impl vstd::std_specs::convert::FromSpecImpl<hex::FromHexError> for OctokitError {
    open spec fn obeys_from_spec() -> bool {
        false
    }

    open spec fn from_spec(err: hex::FromHexError) -> OctokitError {
        arbitrary()
    }
}

/// An OpenSSL failure becomes a `CryptoBackend` error that carries OpenSSL's
/// own wording.
impl From<openssl::error::ErrorStack> for OctokitError {
    fn from(err: openssl::error::ErrorStack) -> (e: OctokitError)
        ensures
            e.spec_kind() == ErrorKind::CryptoBackend,
    {
        OctokitError { kind: ErrorKind::CryptoBackend, details: err.to_string() }
    }
}

/// The conversion is specified by its `ensures` alone: the message is
/// OpenSSL's and is not modelled.
impl vstd::std_specs::convert::FromSpecImpl<openssl::error::ErrorStack> for OctokitError {
    open spec fn obeys_from_spec() -> bool {
        false
    }

    open spec fn from_spec(err: openssl::error::ErrorStack) -> OctokitError {
        arbitrary()
    }
}

/// A JSON failure becomes a `Json` error that carries the parser's own
/// wording.
impl From<serde_json::Error> for OctokitError {
    fn from(err: serde_json::Error) -> (e: OctokitError)
        ensures
            e.spec_kind() == ErrorKind::Json,
    {
        OctokitError { kind: ErrorKind::Json, details: err.to_string() }
    }
}

/// The conversion is specified by its `ensures` alone: the message is the
/// parser's and is not modelled.
impl vstd::std_specs::convert::FromSpecImpl<serde_json::Error> for OctokitError {
    open spec fn obeys_from_spec() -> bool {
        false
    }

    open spec fn from_spec(err: serde_json::Error) -> OctokitError {
        arbitrary()
    }
}

/// A failed HTTP exchange becomes a `Transport` error that carries the
/// client's own wording.
impl From<reqwest::Error> for OctokitError {
    fn from(err: reqwest::Error) -> (e: OctokitError)
        ensures
            e.spec_kind() == ErrorKind::Transport,
    {
        OctokitError { kind: ErrorKind::Transport, details: err.to_string() }
    }
}

/// The conversion is specified by its `ensures` alone: the message is the
/// client's and is not modelled.
impl vstd::std_specs::convert::FromSpecImpl<reqwest::Error> for OctokitError {
    open spec fn obeys_from_spec() -> bool {
        false
    }

    open spec fn from_spec(err: reqwest::Error) -> OctokitError {
        arbitrary()
    }
}

} // verus!
