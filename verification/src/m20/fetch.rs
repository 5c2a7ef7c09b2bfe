//! Queries of the Mars 2020 raw image API.

use vstd::prelude::*;
use crate::remotequery::{param, param_b, views, RemoteQuery};
use crate::util::{
    concat_str, contains_string, decimal, int_to_decimal, join_strings, map_entry, seq_join,
    to_owned_string, InstrumentMap,
};

verus! {

/// The API's summary of the most recent data.
pub struct M20LatestData {
    pub latest: String,
    pub latest_sol: u16,
    pub latest_sols: Vec<u16>,
    pub new_count: u16,
    pub sol_count: u16,
    pub total: u32,
    pub result_type: String,
}

impl M20LatestData {
    pub fn latest(&self) -> (r: String)
        ensures
            r@ == self.latest@,
    {
        self.latest.clone()
    }

    pub fn latest_sol(&self) -> (r: u16)
        ensures
            r == self.latest_sol,
    {
        self.latest_sol
    }

    pub fn latest_sols(&self) -> (r: Vec<u16>)
        ensures
            r@ == self.latest_sols@,
    {
        let mut out: Vec<u16> = Vec::new();
        let n = self.latest_sols.len();
        for i in 0..n
            invariant
                n == self.latest_sols@.len(),
                out@ =~= self.latest_sols@.subrange(0, i as int),
        {
            out.push(self.latest_sols[i]);
        }
        out
    }

    pub fn new_count(&self) -> (r: u16)
        ensures
            r == self.new_count,
    {
        self.new_count
    }

    pub fn sol_count(&self) -> (r: u16)
        ensures
            r == self.sol_count,
    {
        self.sol_count
    }

    pub fn total(&self) -> (r: u32)
        ensures
            r == self.total,
    {
        self.total
    }
}

/// The Mars 2020 implementation of remote fetching.
pub struct M20Fetch {}

impl M20Fetch {
    pub fn new() -> (r: M20Fetch) {
        M20Fetch {  }
    }

    /// Groups of Mars 2020 remote instrument names.
    pub fn make_instrument_map(&self) -> (r: InstrumentMap)
        ensures
            r@ == m20_instrument_groups(),
    {
        make_m20_instrument_map()
    }
}

/// The Mars 2020 instrument groups and the remote names in each.
pub open spec fn m20_instrument_groups() -> Seq<(Seq<char>, Seq<Seq<char>>)> {
    seq![
        ("HAZ_FRONT"@, seq!["FRONT_HAZCAM_LEFT_A"@, "FRONT_HAZCAM_LEFT_B"@, "FRONT_HAZCAM_RIGHT_A"@, "FRONT_HAZCAM_RIGHT_B"@]),
        ("SUPERCAM"@, seq!["SUPERCAM_RMI"@]),
        ("HAZ_REAR"@, seq!["REAR_HAZCAM_LEFT"@, "REAR_HAZCAM_RIGHT"@]),
        ("NAVCAM"@, seq!["NAVCAM_LEFT"@, "NAVCAM_RIGHT"@]),
        ("MASTCAM"@, seq!["MCZ_LEFT"@, "MCZ_RIGHT"@]),
        ("EDLCAM"@, seq!["EDL_DDCAM"@, "EDL_PUCAM1"@, "EDL_PUCAM2"@, "EDL_RUCAM"@, "EDL_RDCAM"@, "LCAM"@]),
        ("WATSON"@, seq!["SHERLOC_WATSON"@]),
        ("HELI_NAV"@, seq!["HELI_NAV"@]),
        ("HELI_RTE"@, seq!["HELI_RTE"@]),
        ("CACHECAM"@, seq!["CACHECAM"@]),
        ("PIXL"@, seq!["PIXL_MCC"@]),
        ("SKYCAM"@, seq!["SKYCAM"@]),
        ("SHERLOC"@, seq!["SHERLOC_ACI"@]),
    ]
}

/// Builds the Mars 2020 instrument map.
pub fn make_m20_instrument_map() -> (r: InstrumentMap)
    ensures
        r@ == m20_instrument_groups(),
{
    let mut map: Vec<(String, Vec<String>)> = Vec::new();
    map.push(map_entry("HAZ_FRONT", &["FRONT_HAZCAM_LEFT_A", "FRONT_HAZCAM_LEFT_B", "FRONT_HAZCAM_RIGHT_A", "FRONT_HAZCAM_RIGHT_B"]));
    map.push(map_entry("SUPERCAM", &["SUPERCAM_RMI"]));
    map.push(map_entry("HAZ_REAR", &["REAR_HAZCAM_LEFT", "REAR_HAZCAM_RIGHT"]));
    map.push(map_entry("NAVCAM", &["NAVCAM_LEFT", "NAVCAM_RIGHT"]));
    map.push(map_entry("MASTCAM", &["MCZ_LEFT", "MCZ_RIGHT"]));
    map.push(map_entry("EDLCAM", &["EDL_DDCAM", "EDL_PUCAM1", "EDL_PUCAM2", "EDL_RUCAM", "EDL_RDCAM", "LCAM"]));
    map.push(map_entry("WATSON", &["SHERLOC_WATSON"]));
    map.push(map_entry("HELI_NAV", &["HELI_NAV"]));
    map.push(map_entry("HELI_RTE", &["HELI_RTE"]));
    map.push(map_entry("CACHECAM", &["CACHECAM"]));
    map.push(map_entry("PIXL", &["PIXL_MCC"]));
    map.push(map_entry("SKYCAM", &["SKYCAM"]));
    map.push(map_entry("SHERLOC", &["SHERLOC_ACI"]));
    let r = InstrumentMap { map };
    assert(r@ =~~= m20_instrument_groups());
    r
}


/// The `extended` filter terms of a Mars 2020 query.
pub open spec fn m20_extended_terms(q: RemoteQuery) -> Seq<Seq<char>> {
    (if q.thumbnails {
        seq!["sample_type::thumbnail"@]
    } else {
        seq![]
    }) + (if q.movie_only {
        seq!["product_id::ecv"@]
    } else {
        seq![]
    }) + views(q.product_types@).map_values(|p: Seq<char>| "product_id::"@ + p)
}

/// The API category: Ingenuity's cameras live in their own category.
pub open spec fn m20_category(q: RemoteQuery) -> Seq<char> {
    if views(q.cameras@).contains("HELI_NAV"@) || views(q.cameras@).contains("HELI_RTE"@) {
        "mars2020,ingenuity"@
    } else {
        "mars2020"@
    }
}

/// The query parameters of a Mars 2020 raw image search, in order.
pub open spec fn m20_query_params(q: RemoteQuery) -> Seq<(Seq<char>, Seq<char>)> {
    let base = seq![
        ("feed"@, "raw_images"@),
        ("category"@, m20_category(q)),
        ("feedtype"@, "json"@),
        ("ver"@, "1.2"@),
        ("num"@, decimal(q.num_per_page as int)),
        ("order"@, "sol desc"@),
        ("search"@, seq_join(views(q.cameras@), "%7C"@)),
        ("condition_2"@, decimal(q.minsol as int) + ":sol:gte"@),
        ("condition_3"@, decimal(q.maxsol as int) + ":sol:lte"@),
    ];
    let paged = match q.page {
        Some(p) => base.push(("page"@, decimal(p as int))),
        None => base,
    };
    let ext = m20_extended_terms(q);
    if ext.len() == 0 {
        paged
    } else {
        paged.push(("extended"@, seq_join(ext, ","@)))
    }
}

/// The `extended` filter terms of a query.
fn extended_terms(query: &RemoteQuery) -> (r: Vec<String>)
    ensures
        views(r@) == m20_extended_terms(*query),
{
    let mut ext: Vec<String> = Vec::new();
    if query.thumbnails {
        ext.push(to_owned_string("sample_type::thumbnail"));
    }
    if query.movie_only {
        ext.push(to_owned_string("product_id::ecv"));
    }
    let ghost head = views(ext@);
    proof {
        assert(head =~= (if query.thumbnails {
            seq!["sample_type::thumbnail"@]
        } else {
            seq![]
        }) + (if query.movie_only {
            seq!["product_id::ecv"@]
        } else {
            seq![]
        }));
    }
    let n = query.product_types.len();
    let ghost pv = views(query.product_types@);
    for i in 0..n
        invariant
            n == query.product_types@.len(),
            pv == views(query.product_types@),
            views(ext@) =~= head + pv.take(i as int).map_values(|p: Seq<char>| "product_id::"@ + p),
    {
        let ghost prev = views(ext@);
        let t = concat_str("product_id::", query.product_types[i].as_str());
        let ghost tv = t@;
        ext.push(t);
        proof {
            assert(views(ext@) =~= prev.push(tv));
            assert(pv.take(i + 1) =~= pv.take(i as int).push(pv[i as int]));
            assert(pv.take(i + 1).map_values(|p: Seq<char>| "product_id::"@ + p) =~= pv.take(
                i as int,
            ).map_values(|p: Seq<char>| "product_id::"@ + p).push("product_id::"@ + pv[i as int]));
        }
    }
    proof {
        assert(pv.take(n as int) =~= pv);
    }
    ext
}

/// The query parameters of a Mars 2020 raw image search.
pub fn query_params(query: &RemoteQuery) -> (r: Vec<(String, String)>)
    ensures
        crate::remotequery::param_views(r@) == m20_query_params(*query),
{
    let heli = contains_string(&query.cameras, "HELI_NAV") || contains_string(
        &query.cameras,
        "HELI_RTE",
    );
    let category = if heli {
        "mars2020,ingenuity"
    } else {
        "mars2020"
    };
    let mut params: Vec<(String, String)> = Vec::new();
    params.push(param("feed", "raw_images"));
    params.push(param("category", category));
    params.push(param("feedtype", "json"));
    params.push(param("ver", "1.2"));
    params.push(param_b("num", int_to_decimal(query.num_per_page as i64)));
    params.push(param("order", "sol desc"));
    params.push(param_b("search", join_strings(&query.cameras, "%7C")));
    let minsol = int_to_decimal(query.minsol as i64);
    params.push(param_b("condition_2", concat_str(minsol.as_str(), ":sol:gte")));
    let maxsol = int_to_decimal(query.maxsol as i64);
    params.push(param_b("condition_3", concat_str(maxsol.as_str(), ":sol:lte")));
    match query.page {
        Some(p) => {
            params.push(param_b("page", int_to_decimal(p as i64)));
        },
        None => {},
    }
    let extended = extended_terms(query);
    if extended.len() > 0 {
        params.push(param_b("extended", join_strings(&extended, ",")));
    }
    proof {
        assert(crate::remotequery::param_views(params@) =~= m20_query_params(*query));
    }
    params
}


/// The URI text of a Mars 2020 raw image search, before the URL parser normalises it.
pub fn query_uri(query: &RemoteQuery) -> (r: String)
    ensures
        r@ == crate::remotequery::with_params(
            crate::constants::url::M20_RAW_WEBSERVICE_URL@,
            m20_query_params(*query),
        ),
{
    let params = query_params(query);
    crate::remotequery::build_query_uri(crate::constants::url::M20_RAW_WEBSERVICE_URL, &params)
}

/// The request of a Mars 2020 raw image search: the service URL with the query's parameters.
pub fn request(query: &RemoteQuery) -> (r: Option<crate::jsonfetch::JsonFetcher>)
    ensures
        match crate::httpfetch::url_serialization_of(crate::constants::url::M20_RAW_WEBSERVICE_URL@) {
            Some(u) => r matches Some(f) && (f.fetcher.uri@, f.fetcher.numparams as int)
                == crate::jsonfetch::add_params(u, 0, m20_query_params(*query)),
            None => r is None,
        },
{
    let params = query_params(query);
    proof {
        assert(crate::remotequery::param_views(params@).len() == params@.len());
        assert(m20_query_params(*query).len() <= 11);
    }
    crate::jsonfetch::request_for(crate::constants::url::M20_RAW_WEBSERVICE_URL, &params)
}

} // verus!
