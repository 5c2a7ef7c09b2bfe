//! Building the request of a JSON API query.

use vstd::prelude::*;
use crate::httpfetch::{url_serialization_of, with_param_text, HttpFetcher};
use crate::remotequery::param_views;

verus! {

/// A JSON API request under construction.
pub struct JsonFetcher {
    pub fetcher: HttpFetcher,
}

/// The URI and parameter count after adding `params` in order to a fetcher
/// at `uri` holding `n` parameters; a parameter whose URI does not parse is
/// skipped.
pub open spec fn add_params(uri: Seq<char>, n: int, params: Seq<(Seq<char>, Seq<char>)>) -> (
    Seq<char>,
    int,
)
    decreases params.len(),
{
    if params.len() == 0 {
        (uri, n)
    } else {
        param_step(add_params(uri, n, params.drop_last()), params.last())
    }
}

/// The URI and parameter count after adding the parameter `p`, when the
/// result parses; unchanged otherwise.
pub open spec fn param_step(state: (Seq<char>, int), p: (Seq<char>, Seq<char>)) -> (Seq<char>, int) {
    match url_serialization_of(with_param_text(state.0, state.1, p.0, p.1)) {
        Some(u) => (u, state.1 + 1),
        None => state,
    }
}

proof fn lemma_add_params_count(uri: Seq<char>, n: int, params: Seq<(Seq<char>, Seq<char>)>)
    ensures
        n <= add_params(uri, n, params).1 <= n + params.len(),
    decreases params.len(),
{
    if params.len() > 0 {
        lemma_add_params_count(uri, n, params.drop_last());
    }
}

impl JsonFetcher {
    /// A request of `uri`; `None` when `uri` is no URL.
    pub fn new(uri: &str) -> (r: Option<JsonFetcher>)
        ensures
            match url_serialization_of(uri@) {
                Some(u) => r matches Some(f) && f.fetcher.uri@ == u && f.fetcher.numparams == 0,
                None => r is None,
            },
    {
        match HttpFetcher::new(uri) {
            Some(f) => Some(JsonFetcher { fetcher: f }),
            None => None,
        }
    }

    /// Adds a query parameter; one whose URI does not parse is skipped.
    pub fn param(&mut self, key: &str, value: &str)
        requires
            old(self).fetcher.numparams < u32::MAX,
        ensures
            (final(self).fetcher.uri@, final(self).fetcher.numparams as int) == param_step(
                (old(self).fetcher.uri@, old(self).fetcher.numparams as int),
                (key@, value@),
            ),
    {
        let _ = self.fetcher.param(key, value);
    }
}

/// The request of a query: `base` with `params` added in order; `None` when
/// `base` is no URL.
pub fn request_for(base: &str, params: &Vec<(String, String)>) -> (r: Option<JsonFetcher>)
    requires
        params@.len() < u32::MAX,
    ensures
        match url_serialization_of(base@) {
            Some(u) => r matches Some(f) && (f.fetcher.uri@, f.fetcher.numparams as int) == add_params(
                u,
                0,
                param_views(params@),
            ),
            None => r is None,
        },
{
    let mut req = match JsonFetcher::new(base) {
        Some(f) => f,
        None => {
            return None;
        },
    };
    let ghost u = req.fetcher.uri@;
    let ghost pv = param_views(params@);
    let n = params.len();
    for i in 0..n
        invariant
            n == params@.len(),
            n < u32::MAX,
            pv == param_views(params@),
            (req.fetcher.uri@, req.fetcher.numparams as int) == add_params(u, 0, pv.take(i as int)),
    {
        proof {
            lemma_add_params_count(u, 0, pv.take(i as int));
            assert(pv.take(i + 1).drop_last() =~= pv.take(i as int));
            assert(pv.take(i + 1).last() == pv[i as int]);
        }
        req.param(params[i].0.as_str(), params[i].1.as_str());
    }
    proof {
        assert(pv.take(n as int) =~= pv);
    }
    Some(req)
}

} // verus!
