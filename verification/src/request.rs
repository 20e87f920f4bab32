//! The request body of the shortening endpoint, as plain values.

use vstd::prelude::*;

verus! {

/// A shortening request: an optional API key and the URL to shorten.
#[derive(Debug, Clone)]
pub struct ShortenRequest {
    pub api_key: Option<String>,
    pub url: String,
}

impl ShortenRequest {
    /// A request from its parts.
    pub fn new(api_key: Option<String>, url: String) -> (r: ShortenRequest)
        ensures
            r.api_key == api_key,
            r.url == url,
    {
        ShortenRequest { api_key, url }
    }
}

} // verus!
