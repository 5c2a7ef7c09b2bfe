//! Queries of the Curiosity raw image API.

use vstd::prelude::*;
use crate::remotequery::{param, param_b, views, RemoteQuery};
use crate::util::{
    concat_str, decimal, int_to_decimal, join_strings, map_entry, seq_join, InstrumentMap,
};

verus! {

/// Paging summary reported by the Curiosity API.
pub struct MslRemoteStats {
    pub more: bool,
    pub total: i32,
    pub page: i32,
    pub per_page: i32,
}

/// The API's summary of the most recent data.
pub struct MslLatestData {
    pub latest: String,
    pub latest_sol: u16,
    pub latest_sols: Vec<u16>,
    pub new_count: u16,
    pub sol_count: u16,
    pub total: u32,
}

/// The API's reply to a "latest data" request.
pub struct MslLatest {
    pub success: bool,
    pub latest_data: MslLatestData,
}

impl MslLatest {
    pub fn latest(&self) -> (r: String)
        ensures
            r@ == self.latest_data.latest@,
    {
        self.latest_data.latest.clone()
    }

    pub fn latest_sol(&self) -> (r: u16)
        ensures
            r == self.latest_data.latest_sol,
    {
        self.latest_data.latest_sol
    }

    pub fn latest_sols(&self) -> (r: Vec<u16>)
        ensures
            r@ == self.latest_data.latest_sols@,
    {
        let mut out: Vec<u16> = Vec::new();
        let n = self.latest_data.latest_sols.len();
        for i in 0..n
            invariant
                n == self.latest_data.latest_sols@.len(),
                out@ =~= self.latest_data.latest_sols@.subrange(0, i as int),
        {
            out.push(self.latest_data.latest_sols[i]);
        }
        out
    }

    pub fn new_count(&self) -> (r: u16)
        ensures
            r == self.latest_data.new_count,
    {
        self.latest_data.new_count
    }

    pub fn sol_count(&self) -> (r: u16)
        ensures
            r == self.latest_data.sol_count,
    {
        self.latest_data.sol_count
    }

    pub fn total(&self) -> (r: u32)
        ensures
            r == self.latest_data.total,
    {
        self.latest_data.total
    }
}

/// The Curiosity implementation of remote fetching.
pub struct MslFetch {}

impl MslFetch {
    pub fn new() -> (r: MslFetch) {
        MslFetch {  }
    }

    /// Groups of Curiosity remote instrument names.
    pub fn make_instrument_map(&self) -> (r: InstrumentMap)
        ensures
            r@ == msl_instrument_groups(),
    {
        make_msl_instrument_map()
    }
}

/// The Curiosity instrument groups and the remote names in each.
pub open spec fn msl_instrument_groups() -> Seq<(Seq<char>, Seq<Seq<char>>)> {
    seq![
        ("HAZ_FRONT"@, seq!["FHAZ_RIGHT_A"@, "FHAZ_LEFT_A"@, "FHAZ_RIGHT_B"@, "FHAZ_LEFT_B"@]),
        ("HAZ_REAR"@, seq!["RHAZ_RIGHT_A"@, "RHAZ_LEFT_A"@, "RHAZ_RIGHT_B"@, "RHAZ_LEFT_B"@]),
        ("NAV_LEFT"@, seq!["NAV_LEFT_A"@, "NAV_LEFT_B"@]),
        ("NAV_RIGHT"@, seq!["NAV_RIGHT_A"@, "NAV_RIGHT_B"@]),
        ("CHEMCAM"@, seq!["CHEMCAM_RMI"@]),
        ("MARDI"@, seq!["MARDI"@]),
        ("MAHLI"@, seq!["MAHLI"@]),
        ("MASTCAM"@, seq!["MAST_LEFT"@, "MAST_RIGHT"@]),
    ]
}

/// Builds the Curiosity instrument map.
pub fn make_msl_instrument_map() -> (r: InstrumentMap)
    ensures
        r@ == msl_instrument_groups(),
{
    let mut map: Vec<(String, Vec<String>)> = Vec::new();
    map.push(map_entry("HAZ_FRONT", &["FHAZ_RIGHT_A", "FHAZ_LEFT_A", "FHAZ_RIGHT_B", "FHAZ_LEFT_B"]));
    map.push(map_entry("HAZ_REAR", &["RHAZ_RIGHT_A", "RHAZ_LEFT_A", "RHAZ_RIGHT_B", "RHAZ_LEFT_B"]));
    map.push(map_entry("NAV_LEFT", &["NAV_LEFT_A", "NAV_LEFT_B"]));
    map.push(map_entry("NAV_RIGHT", &["NAV_RIGHT_A", "NAV_RIGHT_B"]));
    map.push(map_entry("CHEMCAM", &["CHEMCAM_RMI"]));
    map.push(map_entry("MARDI", &["MARDI"]));
    map.push(map_entry("MAHLI", &["MAHLI"]));
    map.push(map_entry("MASTCAM", &["MAST_LEFT", "MAST_RIGHT"]));
    let r = InstrumentMap { map };
    assert(r@ =~~= msl_instrument_groups());
    r
}

/// The query parameters of a Curiosity raw image search, in order.
pub open spec fn msl_query_params(q: RemoteQuery) -> Seq<(Seq<char>, Seq<char>)> {
    let base = seq![
        ("condition_1"@, "msl:mission"@),
        ("per_page"@, decimal(q.num_per_page as int)),
        ("order"@, "sol desc,instrument_sort asc,sample_type_sort asc, date_taken desc"@),
        ("search"@, seq_join(views(q.cameras@), "|"@)),
        ("condition_2"@, decimal(q.minsol as int) + ":sol:gte"@),
        ("condition_3"@, decimal(q.maxsol as int) + ":sol:lte"@),
    ];
    match q.page {
        Some(p) => base.push(("page"@, decimal(p as int))),
        None => base,
    }
}

/// The query parameters of a Curiosity raw image search.
pub fn query_params(query: &RemoteQuery) -> (r: Vec<(String, String)>)
    ensures
        crate::remotequery::param_views(r@) == msl_query_params(*query),
{
    let mut params: Vec<(String, String)> = Vec::new();
    params.push(param("condition_1", "msl:mission"));
    params.push(param_b("per_page", int_to_decimal(query.num_per_page as i64)));
    params.push(param("order", "sol desc,instrument_sort asc,sample_type_sort asc, date_taken desc"));
    params.push(param_b("search", join_strings(&query.cameras, "|")));
    let minsol = int_to_decimal(query.minsol as i64);
    params.push(param_b("condition_2", concat_str(minsol.as_str(), ":sol:gte")));
    let maxsol = int_to_decimal(query.maxsol as i64);
    params.push(param_b("condition_3", concat_str(maxsol.as_str(), ":sol:lte")));
    match query.page {
        Some(p) => {
            params.push(param_b("page", int_to_decimal(p as i64)));
        },
        None => {},
    }
    proof {
        assert(crate::remotequery::param_views(params@) =~= msl_query_params(*query));
    }
    params
}

/// The URI text of a Curiosity raw image search, before the URL parser normalises it.
pub fn query_uri(query: &RemoteQuery) -> (r: String)
    ensures
        r@ == crate::remotequery::with_params(
            crate::constants::url::MSL_RAW_WEBSERVICE_URL@,
            msl_query_params(*query),
        ),
{
    let params = query_params(query);
    crate::remotequery::build_query_uri(crate::constants::url::MSL_RAW_WEBSERVICE_URL, &params)
}

/// The request of a Curiosity raw image search: the service URL with the query's parameters.
pub fn request(query: &RemoteQuery) -> (r: Option<crate::jsonfetch::JsonFetcher>)
    ensures
        match crate::httpfetch::url_serialization_of(crate::constants::url::MSL_RAW_WEBSERVICE_URL@) {
            Some(u) => r matches Some(f) && (f.fetcher.uri@, f.fetcher.numparams as int)
                == crate::jsonfetch::add_params(u, 0, msl_query_params(*query)),
            None => r is None,
        },
{
    let params = query_params(query);
    proof {
        assert(crate::remotequery::param_views(params@).len() == params@.len());
        assert(msl_query_params(*query).len() <= 11);
    }
    crate::jsonfetch::request_for(crate::constants::url::MSL_RAW_WEBSERVICE_URL, &params)
}


} // verus!
