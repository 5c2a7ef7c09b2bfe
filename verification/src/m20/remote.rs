//! Listing and searching Mars 2020 raw images.

use vstd::prelude::*;
use crate::m20::fetch::{m20_category, m20_instrument_groups, make_m20_instrument_map};
use crate::remotequery::{listing_header, listing_titles, padded_row, param, param_b, views, RemoteQuery};
use crate::util::{concat_str, contains_string, decimal, int_to_decimal, join_strings, seq_join, to_owned_string, InstrumentMap};

verus! {

/// Column widths of the Mars 2020 image listing.
pub open spec fn m20_listing_widths() -> Seq<usize> {
    seq![54usize, 25, 6, 27, 27, 6, 6, 7, 10]
}

/// The header line of the Mars 2020 image listing.
pub fn header_line() -> (r: String)
    ensures
        r@ == padded_row(listing_titles(), m20_listing_widths()),
{
    let widths: Vec<usize> = vec![54, 25, 6, 27, 27, 6, 6, 7, 10];
    assert(widths@ =~= m20_listing_widths());
    listing_header(&widths)
}

/// Groups of Mars 2020 remote instrument names.
pub fn make_instrument_map() -> (r: InstrumentMap)
    ensures
        r@ == m20_instrument_groups(),
{
    make_m20_instrument_map()
}

/// Paging summary of a Mars 2020 search.
pub struct M20RemoteStats {
    pub error_message: String,
    pub total_results: i32,
    pub page: i32,
    pub total_images: i32,
}

/// The `extended` filter terms of a Mars 2020 search: the sample type, then
/// movie frames when asked for, then each product type.
pub open spec fn remote_extended_terms(q: RemoteQuery) -> Seq<Seq<char>> {
    seq![if q.thumbnails { "sample_type::thumbnail"@ } else { "sample_type::full"@ }] + (
    if q.movie_only {
        seq!["product_id::ecv"@]
    } else {
        seq![]
    }) + views(q.product_types@).map_values(|p: Seq<char>| "product_id::"@ + p)
}

/// The query parameters of a Mars 2020 search, in order.
pub open spec fn remote_query_params_spec(q: RemoteQuery) -> Seq<(Seq<char>, Seq<char>)> {
    let base = seq![
        ("feed"@, "raw_images"@),
        ("category"@, m20_category(q)),
        ("feedtype"@, "json"@),
        ("ver"@, "1.2"@),
        ("num"@, decimal(q.num_per_page as int)),
        ("order"@, "sol desc"@),
        ("search"@, seq_join(views(q.cameras@), "|"@)),
        ("condition_2"@, decimal(q.minsol as int) + ":sol:gte"@),
        ("condition_3"@, decimal(q.maxsol as int) + ":sol:lte"@),
    ];
    let paged = match q.page {
        Some(p) => base.push(("page"@, decimal(p as int))),
        None => base,
    };
    paged.push(("extended"@, seq_join(remote_extended_terms(q), ","@)))
}

/// The `extended` filter terms of a search.
fn extended_terms(query: &RemoteQuery) -> (r: Vec<String>)
    ensures
        views(r@) == remote_extended_terms(*query),
{
    let mut ext: Vec<String> = Vec::new();
    if query.thumbnails {
        ext.push(to_owned_string("sample_type::thumbnail"));
    } else {
        ext.push(to_owned_string("sample_type::full"));
    }
    if query.movie_only {
        ext.push(to_owned_string("product_id::ecv"));
    }
    let ghost head = views(ext@);
    proof {
        assert(head =~= seq![
            if query.thumbnails { "sample_type::thumbnail"@ } else { "sample_type::full"@ },
        ] + (if query.movie_only {
            seq!["product_id::ecv"@]
        } else {
            seq![]
        }));
    }
    let n = query.product_types.len();
    let ghost pv = views(query.product_types@);
    for i in 0..n
        invariant
            n == query.product_types@.len(),
            pv == views(query.product_types@),
            views(ext@) =~= head + pv.take(i as int).map_values(|p: Seq<char>| "product_id::"@ + p),
    {
        let ghost prev = views(ext@);
        let t = concat_str("product_id::", query.product_types[i].as_str());
        let ghost tv = t@;
        ext.push(t);
        proof {
            assert(views(ext@) =~= prev.push(tv));
            assert(pv.take(i + 1) =~= pv.take(i as int).push(pv[i as int]));
            assert(pv.take(i + 1).map_values(|p: Seq<char>| "product_id::"@ + p) =~= pv.take(
                i as int,
            ).map_values(|p: Seq<char>| "product_id::"@ + p).push("product_id::"@ + pv[i as int]));
        }
    }
    proof {
        assert(pv.take(n as int) =~= pv);
    }
    ext
}

/// The query parameters of a Mars 2020 search.
pub fn remote_query_params(query: &RemoteQuery) -> (r: Vec<(String, String)>)
    ensures
        crate::remotequery::param_views(r@) == remote_query_params_spec(*query),
{
    let heli = contains_string(&query.cameras, "HELI_NAV") || contains_string(
        &query.cameras,
        "HELI_RTE",
    );
    let category = if heli {
        "mars2020,ingenuity"
    } else {
        "mars2020"
    };
    let mut params: Vec<(String, String)> = Vec::new();
    params.push(param("feed", "raw_images"));
    params.push(param("category", category));
    params.push(param("feedtype", "json"));
    params.push(param("ver", "1.2"));
    params.push(param_b("num", int_to_decimal(query.num_per_page as i64)));
    params.push(param("order", "sol desc"));
    params.push(param_b("search", join_strings(&query.cameras, "|")));
    let minsol = int_to_decimal(query.minsol as i64);
    params.push(param_b("condition_2", concat_str(minsol.as_str(), ":sol:gte")));
    let maxsol = int_to_decimal(query.maxsol as i64);
    params.push(param_b("condition_3", concat_str(maxsol.as_str(), ":sol:lte")));
    match query.page {
        Some(p) => {
            params.push(param_b("page", int_to_decimal(p as i64)));
        },
        None => {},
    }
    let extended = extended_terms(query);
    params.push(param_b("extended", join_strings(&extended, ",")));
    proof {
        assert(crate::remotequery::param_views(params@) =~= remote_query_params_spec(*query));
    }
    params
}

/// The request of a Mars 2020 search: the service URL with the query's parameters.
pub fn request(query: &RemoteQuery) -> (r: Option<crate::jsonfetch::JsonFetcher>)
    ensures
        match crate::httpfetch::url_serialization_of(crate::constants::url::M20_RAW_WEBSERVICE_URL@) {
            Some(u) => r matches Some(f) && (f.fetcher.uri@, f.fetcher.numparams as int)
                == crate::jsonfetch::add_params(u, 0, remote_query_params_spec(*query)),
            None => r is None,
        },
{
    let params = remote_query_params(query);
    proof {
        assert(crate::remotequery::param_views(params@).len() == params@.len());
        assert(remote_query_params_spec(*query).len() <= 11);
    }
    crate::jsonfetch::request_for(crate::constants::url::M20_RAW_WEBSERVICE_URL, &params)
}

} // verus!
