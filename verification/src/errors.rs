//! Error types of the shortening core.
//!
//! Failures are a sum type: a kind out of a fixed taxonomy, plus an optional
//! nested cause when the failure wraps a store fault. Each kind carries a
//! fixed human-readable message.

use vstd::prelude::*;

verus! {

/// The failure class every key-value store operation may report: the store
/// was unreachable or refused the command.
#[derive(Clone, Copy, Debug, PartialEq, Eq, Structural)]
pub enum StoreError {
    Unavailable,
}

/// The taxonomy of `shorten` failures.
#[derive(Clone, Copy, Debug, PartialEq, Eq, Structural)]
pub enum ErrorKind {
    /// The API key's flag is missing or false, or the store failed while
    /// the key or its rate counter was being checked.
    InvalidApiKey,
    /// The post-increment rate counter exceeds the configured threshold.
    RateLimitExceeded,
    /// Every identifier candidate within the attempt budget collided.
    IdGenerationExhausted,
    /// The URL failed to parse after normalization.
    InvalidUrl,
    /// The target host equals the request host.
    LinkLoop,
    /// The final persistence write failed.
    StorageError,
}

/// An error returned by the shortening core: a kind plus an optional
/// wrapped store fault.
#[derive(Clone, Copy, Debug)]
pub struct ShortenerError {
    pub kind: ErrorKind,
    pub cause: Option<StoreError>,
}

/// The fixed message rendered for each error kind.
pub open spec fn message_of(kind: ErrorKind) -> Seq<char> {
    match kind {
        ErrorKind::InvalidApiKey => "Invalid API key"@,
        ErrorKind::RateLimitExceeded => "Rate limit exceeded"@,
        ErrorKind::IdGenerationExhausted => "Failed to generate an ID: too many attempts. Consider using a longer ID"@,
        ErrorKind::InvalidUrl => "Unable to parse url"@,
        ErrorKind::LinkLoop => "Link loop is not allowed"@,
        ErrorKind::StorageError => "Redis error"@,
    }
}

impl ShortenerError {
    /// An error of the given kind with no nested cause.
    pub fn new(kind: ErrorKind) -> (e: ShortenerError)
        ensures
            e.kind == kind,
            e.cause is None,
    {
        ShortenerError { kind, cause: None }
    }

    /// An error of the given kind wrapping a store fault.
    pub fn new_with_cause(kind: ErrorKind, cause: StoreError) -> (e: ShortenerError)
        ensures
            e.kind == kind,
            e.cause == Some(cause),
    {
        ShortenerError { kind, cause: Some(cause) }
    }

    /// The human-readable message for this error's kind.
    pub fn message(&self) -> (m: &'static str)
        ensures
            m@ == message_of(self.kind),
    {
        match self.kind {
            ErrorKind::InvalidApiKey => "Invalid API key",
            ErrorKind::RateLimitExceeded => "Rate limit exceeded",
            ErrorKind::IdGenerationExhausted => "Failed to generate an ID: too many attempts. Consider using a longer ID",
            ErrorKind::InvalidUrl => "Unable to parse url",
            ErrorKind::LinkLoop => "Link loop is not allowed",
            ErrorKind::StorageError => "Redis error",
        }
    }
}

} // verus!
