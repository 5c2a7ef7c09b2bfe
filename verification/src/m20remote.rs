//! The first Mars 2020 raw image search: its instrument groups, its query
//! parameters and which results it lists.

use vstd::prelude::*;
use crate::util::{
    concat_str, contains_sub, decimal, int_to_decimal, join_strings, map_entry, seq_join,
    str_contains, str_views,
};
use crate::remotequery::param;
use crate::remotequery::param_b;
use vstd::string::*;

verus! {

/// Groups of Mars 2020 remote instrument names, as `(group, names)` entries.
pub struct M20InstrumentMap {
    pub map: Vec<(String, Vec<String>)>,
}

impl View for M20InstrumentMap {
    type V = Seq<(Seq<char>, Seq<Seq<char>>)>;

    open spec fn view(&self) -> Seq<(Seq<char>, Seq<Seq<char>>)> {
        self.map@.map_values(|e: (String, Vec<String>)| (e.0@, str_views(e.1@)))
    }
}

/// The instrument groups of the first Mars 2020 search.
pub open spec fn legacy_groups() -> Seq<(Seq<char>, Seq<Seq<char>>)> {
    seq![
        ("HAZ_FRONT"@, seq!["FRONT_HAZCAM_LEFT_A"@, "FRONT_HAZCAM_LEFT_B"@, "FRONT_HAZCAM_RIGHT_A"@, "FRONT_HAZCAM_RIGHT_B"@]),
        ("SUPERCAM"@, seq!["SUPERCAM_RMI"@]),
        ("HAZ_REAR"@, seq!["REAR_HAZCAM_LEFT"@, "REAR_HAZCAM_RIGHT"@]),
        ("NAVCAM"@, seq!["NAVCAM_LEFT"@, "NAVCAM_RIGHT"@]),
        ("MASTCAM"@, seq!["MCZ_LEFT"@, "MCZ_RIGHT"@]),
        ("EDLCAM"@, seq!["EDL_DDCAM"@, "EDL_PUCAM1"@, "EDL_PUCAM2"@, "EDL_RUCAM"@, "EDL_RDCAM"@, "LCAM"@]),
        ("WATSON"@, seq!["SHERLOC_WATSON"@]),
    ]
}

/// Builds the instrument groups of the first Mars 2020 search.
pub fn make_instrument_map() -> (r: M20InstrumentMap)
    ensures
        r@ == legacy_groups(),
{
    let mut map: Vec<(String, Vec<String>)> = Vec::new();
    map.push(map_entry("HAZ_FRONT", &["FRONT_HAZCAM_LEFT_A", "FRONT_HAZCAM_LEFT_B", "FRONT_HAZCAM_RIGHT_A", "FRONT_HAZCAM_RIGHT_B"]));
    map.push(map_entry("SUPERCAM", &["SUPERCAM_RMI"]));
    map.push(map_entry("HAZ_REAR", &["REAR_HAZCAM_LEFT", "REAR_HAZCAM_RIGHT"]));
    map.push(map_entry("NAVCAM", &["NAVCAM_LEFT", "NAVCAM_RIGHT"]));
    map.push(map_entry("MASTCAM", &["MCZ_LEFT", "MCZ_RIGHT"]));
    map.push(map_entry("EDLCAM", &["EDL_DDCAM", "EDL_PUCAM1", "EDL_PUCAM2", "EDL_RUCAM", "EDL_RDCAM", "LCAM"]));
    map.push(map_entry("WATSON", &["SHERLOC_WATSON"]));
    let r = M20InstrumentMap { map };
    assert(r@ =~~= legacy_groups());
    r
}

/// The `extended` parameter of the first Mars 2020 search.
pub open spec fn legacy_extended(thumbnails: bool, movie_only: bool) -> Seq<char> {
    if thumbnails {
        "sample_type::thumbnail,"@
    } else if movie_only {
        "sample_type::full,product_id::ecv,"@
    } else {
        "sample_type::full,"@
    }
}

/// The query parameters of the first Mars 2020 search for the one-based `page`.
pub open spec fn legacy_query_params(
    cameras: Seq<Seq<char>>,
    num_per_page: int,
    page: int,
    minsol: int,
    maxsol: int,
    thumbnails: bool,
    movie_only: bool,
) -> Seq<(Seq<char>, Seq<char>)> {
    seq![
        ("feed"@, "raw_images"@),
        ("category"@, "mars2020"@),
        ("feedtype"@, "json"@),
        ("num"@, decimal(num_per_page)),
        ("page"@, decimal(page - 1)),
        ("order"@, "sol desc"@),
        ("search"@, seq_join(cameras, "|"@)),
        ("condition_2"@, decimal(minsol) + ":sol:gte"@),
        ("condition_3"@, decimal(maxsol) + ":sol:lte"@),
        ("extended"@, legacy_extended(thumbnails, movie_only)),
    ]
}

/// The query parameters of the first Mars 2020 search; the API counts pages
/// from zero, the caller from one.
pub fn legacy_remote_params(
    cameras: &Vec<String>,
    num_per_page: i32,
    page: i32,
    minsol: i32,
    maxsol: i32,
    thumbnails: bool,
    movie_only: bool,
) -> (r: Vec<(String, String)>)
    requires
        page > i32::MIN,
    ensures
        crate::remotequery::param_views(r@) == legacy_query_params(
            str_views(cameras@),
            num_per_page as int,
            page as int,
            minsol as int,
            maxsol as int,
            thumbnails,
            movie_only,
        ),
{
    let mut params: Vec<(String, String)> = Vec::new();
    params.push(param("feed", "raw_images"));
    params.push(param("category", "mars2020"));
    params.push(param("feedtype", "json"));
    params.push(param_b("num", int_to_decimal(num_per_page as i64)));
    params.push(param_b("page", int_to_decimal(page as i64 - 1)));
    params.push(param("order", "sol desc"));
    params.push(param_b("search", join_strings(cameras, "|")));
    let minsol_s = int_to_decimal(minsol as i64);
    params.push(param_b("condition_2", concat_str(minsol_s.as_str(), ":sol:gte")));
    let maxsol_s = int_to_decimal(maxsol as i64);
    params.push(param_b("condition_3", concat_str(maxsol_s.as_str(), ":sol:lte")));
    if thumbnails {
        params.push(param("extended", "sample_type::thumbnail,"));
    } else if movie_only {
        params.push(param("extended", "sample_type::full,product_id::ecv,"));
    } else {
        params.push(param("extended", "sample_type::full,"));
    }
    proof {
        assert(crate::remotequery::param_views(params@) =~= legacy_query_params(
            str_views(cameras@),
            num_per_page as int,
            page as int,
            minsol as int,
            maxsol as int,
            thumbnails,
            movie_only,
        ));
    }
    params
}

/// Whether the first Mars 2020 search lists an image: thumbnails only when
/// asked for, and only ids holding `search` when it is not empty.
pub open spec fn legacy_lists(
    is_thumbnail: bool,
    imageid: Seq<char>,
    thumbnails: bool,
    search: Seq<char>,
) -> bool {
    !(is_thumbnail && !thumbnails) && (search.len() == 0 || contains_sub(imageid, search))
}

/// Decides whether the first Mars 2020 search lists an image.
pub fn legacy_lists_image(is_thumbnail: bool, imageid: &str, thumbnails: bool, search: &str) -> (r:
    bool)
    ensures
        r == legacy_lists(is_thumbnail, imageid@, thumbnails, search@),
{
    if is_thumbnail && !thumbnails {
        return false;
    }
    if search.unicode_len() == 0 {
        return true;
    }
    str_contains(imageid, search)
}

} // verus!
