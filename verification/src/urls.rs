//! URL normalization, parsing and loop prevention.
//!
//! Normalization prepends `http://` to anything that does not already start
//! with `http` (in either case); parsing is delegated to the `url` crate
//! behind a trusted wrapper whose outcome is named by [`url_host`].

use vstd::prelude::*;
use vstd::string::StrSliceExecFns;
use vstd::string::StringExecFns;

verus! {

/// Whether `s` starts with `http`, compared without regard to ASCII case.
pub open spec fn has_http_prefix(s: Seq<char>) -> bool {
    &&& s.len() >= 4
    &&& (s[0] == 'h' || s[0] == 'H')
    &&& (s[1] == 't' || s[1] == 'T')
    &&& (s[2] == 't' || s[2] == 'T')
    &&& (s[3] == 'p' || s[3] == 'P')
}

/// The normalized form of a URL string: itself if it already starts with
/// `http`, otherwise `http://` prepended.
pub open spec fn normalized_url(s: Seq<char>) -> Seq<char> {
    if has_http_prefix(s) {
        s
    } else {
        "http://"@ + s
    }
}

/// A URL without an `http` prefix is normalized by prepending `http://`
/// exactly once: the result begins with `http://` and carries the given
/// string unchanged after it.
pub proof fn lemma_normalized_url_prefixes_scheme(s: Seq<char>)
    requires
        !has_http_prefix(s),
    ensures
        normalized_url(s) == "http://"@ + s,
        normalized_url(s).subrange(0, 7) == "http://"@,
        normalized_url(s).skip(7) == s,
{
    reveal_strlit("http://");
    assert(normalized_url(s).subrange(0, 7) =~= "http://"@);
    assert(normalized_url(s).skip(7) =~= s);
}

/// Normalization is idempotent: a second pass never prepends again.
pub proof fn lemma_normalized_url_idempotent(s: Seq<char>)
    ensures
        normalized_url(normalized_url(s)) == normalized_url(s),
{
    if !has_http_prefix(s) {
        reveal_strlit("http://");
        assert(has_http_prefix("http://"@ + s));
    }
}

/// Computes [`normalized_url`] on a string.
pub fn normalize_url(url: &str) -> (r: String)
    ensures
        r@ == normalized_url(url@),
{
    let len = url.unicode_len();
    let mut prefixed = false;
    if len >= 4 {
        let c0 = url.get_char(0);
        let c1 = url.get_char(1);
        let c2 = url.get_char(2);
        let c3 = url.get_char(3);
        prefixed = (c0 == 'h' || c0 == 'H') && (c1 == 't' || c1 == 'T') && (c2 == 't'
            || c2 == 'T') && (c3 == 'p' || c3 == 'P');
    }
    if prefixed {
        url.to_owned()
    } else {
        let mut r = String::from_str("http://");
        r.append(url);
        r
    }
}

/// What parsing a URL string yields: `None` when the string is no valid URL,
/// `Some(h)` when it parses with host component `h` (itself absent for URLs
/// without a host). The outcome is a function of the string alone.
pub uninterp spec fn url_host(s: Seq<char>) -> Option<Option<Seq<char>>>;

/// The view of an executable parse outcome, for comparison with [`url_host`].
pub open spec fn host_view(r: Option<Option<String>>) -> Option<Option<Seq<char>>> {
    match r {
        None => None,
        Some(None) => Some(None),
        Some(Some(h)) => Some(Some(h@)),
    }
}

/// Relies on `url::Url::parse` for whether the string is a valid URL and on
/// `url::Url::host_str` for its host component; both depend on the string
/// alone.
#[verifier::external_body]
pub fn parse_url_host(s: &str) -> (r: Option<Option<String>>)
    ensures
        host_view(r) == url_host(s@),
{
    match url::Url::parse(s) {
        Ok(u) => Some(u.host_str().map(|h| h.to_owned())),
        Err(_) => None,
    }
}

/// Whether storing a URL whose parsed host is `parsed_host` would redirect
/// back into the service answering on `request_host`.
pub fn is_link_loop(parsed_host: &Option<String>, request_host: &Option<&str>) -> (r: bool)
    ensures
        r == (parsed_host matches Some(p) && request_host matches Some(h) && p@ == h@),
{
    match (parsed_host, request_host) {
        (Some(p), Some(h)) => {
            let hh: String = (*h).to_owned();
            *p == hh
        },
        _ => false,
    }
}

} // verus!
