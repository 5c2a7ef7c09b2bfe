//! The request URI of an HTTP fetch, built one query parameter at a time,
//! and the plain results of a fetch.

use vstd::prelude::*;
use crate::util::concat_str;

verus! {

/// A binary response body with its HTTP status code.
pub struct SimpleHttpResponse {
    pub bytes: Vec<u8>,
    pub status: u16,
}

/// A text response body with its HTTP status code.
pub struct SimpleHttpResponseString {
    pub text: String,
    pub status: u16,
}

/// Seconds a request may take unless set otherwise.
pub const DEFAULT_TIMEOUT: u64 = 60;

/// What `url::Url::parse(s)` gives, serialised; `None` when `s` is no URL.
pub uninterp spec fn url_serialization_of(s: Seq<char>) -> Option<Seq<char>>;

pub open spec fn opt_view(o: Option<String>) -> Option<Seq<char>> {
    match o {
        Some(s) => Some(s@),
        None => None,
    }
}

/// Parses `s` with `url::Url::parse` and serialises the URL again. Trusted:
/// the result is the named `url_serialization_of(s)`, `None` exactly where
/// the parser refuses `s`.
#[verifier::external_body]
fn parse_url(s: &str) -> (r: Option<String>)
    ensures
        opt_view(r) == url_serialization_of(s@),
{
    match url::Url::parse(s) {
        Ok(u) => Some(u.to_string()),
        Err(_) => None,
    }
}

/// The request URI so far and the number of query parameters it holds.
pub struct HttpFetcher {
    /// The URI, as the URL parser serialised it.
    pub uri: String,
    /// Seconds a request may take.
    pub timeout: u64,
    /// Query parameters added so far.
    pub numparams: u32,
}

/// The separator before a query parameter: `?` before the first, `&` after.
pub open spec fn param_separator(numparams: int) -> Seq<char> {
    if numparams == 0 {
        "?"@
    } else {
        "&"@
    }
}

/// The text parsed when a parameter is added to `uri`.
pub open spec fn with_param_text(uri: Seq<char>, numparams: int, key: Seq<char>, value: Seq<char>) -> Seq<
    char,
> {
    uri + param_separator(numparams) + key + "="@ + value
}

impl HttpFetcher {
    /// A fetcher of `uri`, parsed as a URL; `None` when `uri` is no URL.
    pub fn new(uri: &str) -> (r: Option<HttpFetcher>)
        ensures
            match url_serialization_of(uri@) {
                Some(u) => r matches Some(f) && f.uri@ == u && f.numparams == 0 && f.timeout
                    == DEFAULT_TIMEOUT,
                None => r is None,
            },
    {
        match parse_url(uri) {
            Some(u) => Some(HttpFetcher { uri: u, timeout: DEFAULT_TIMEOUT, numparams: 0 }),
            None => None,
        }
    }

    /// Sets the seconds a request may take.
    pub fn set_timeout(&mut self, seconds: u64)
        ensures
            final(self).timeout == seconds,
            final(self).uri@ == old(self).uri@,
            final(self).numparams == old(self).numparams,
    {
        self.timeout = seconds;
    }

    /// Appends `key=value` to the query and parses the result; `false`, with
    /// nothing changed, when the result is no URL.
    pub fn param(&mut self, key: &str, value: &str) -> (r: bool)
        requires
            old(self).numparams < u32::MAX,
        ensures
            final(self).timeout == old(self).timeout,
            match url_serialization_of(
                with_param_text(old(self).uri@, old(self).numparams as int, key@, value@),
            ) {
                Some(u) => r && final(self).uri@ == u && final(self).numparams == old(self).numparams
                    + 1,
                None => !r && final(self).uri@ == old(self).uri@ && final(self).numparams == old(
                    self,
                ).numparams,
            },
    {
        let q = if self.numparams == 0 {
            "?"
        } else {
            "&"
        };
        let a = concat_str(self.uri.as_str(), q);
        let b = concat_str(a.as_str(), key);
        let c = concat_str(b.as_str(), "=");
        let d = concat_str(c.as_str(), value);
        proof {
            assert(d@ =~= with_param_text(old(self).uri@, old(self).numparams as int, key@, value@));
        }
        match parse_url(d.as_str()) {
            Some(u) => {
                self.uri = u;
                self.numparams = self.numparams + 1;
                true
            },
            None => false,
        }
    }
}

} // verus!
