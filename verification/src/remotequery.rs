//! Queries against the public raw image APIs: parameters, result filtering
//! and paging.

use vstd::prelude::*;
use crate::util::{
    contains_sub, join_strings, pad_right, pad_right_str, seq_join, str_contains,
    strings_of, to_owned_string,
};
use vstd::string::*;

verus! {

/// A search of a mission's raw image API.
pub struct RemoteQuery {
    /// Remote instrument names to search.
    pub cameras: Vec<String>,
    /// Results per page.
    pub num_per_page: i32,
    /// One page only, or all pages when `None`.
    pub page: Option<i32>,
    pub minsol: i32,
    pub maxsol: i32,
    /// Keep thumbnail images.
    pub thumbnails: bool,
    /// Ask for movie frames only.
    pub movie_only: bool,
    /// List, do not download.
    pub list_only: bool,
    /// Substrings of which an image id must hold one (none: keep all).
    pub search: Vec<String>,
    /// Skip images already on disk.
    pub only_new: bool,
    /// Product id codes to ask for.
    pub product_types: Vec<String>,
    /// Where downloads go.
    pub output_path: String,
}

/// Paging summary of a query.
pub struct RemoteStats {
    pub more: bool,
    pub error_message: String,
    pub total_results: i32,
    pub page: i32,
    pub total_images: i32,
}

pub open spec fn views(v: Seq<String>) -> Seq<Seq<char>> {
    v.map_values(|s: String| s@)
}

/// Whether an image of the results is kept: thumbnails only when asked for,
/// and, when search terms are given, only ids that hold one of them.
pub open spec fn image_is_kept(
    is_thumbnail: bool,
    imageid: Seq<char>,
    thumbnails: bool,
    search: Seq<Seq<char>>,
) -> bool {
    !(is_thumbnail && !thumbnails || search.len() != 0 && !(exists|k: int|
        0 <= k < search.len() && #[trigger] contains_sub(imageid, search[k])))
}

/// Decides whether an image of the results is kept.
pub fn image_passes_filter(is_thumbnail: bool, imageid: &str, query: &RemoteQuery) -> (r: bool)
    ensures
        r == image_is_kept(is_thumbnail, imageid@, query.thumbnails, views(query.search@)),
{
    if is_thumbnail && !query.thumbnails {
        return false;
    }
    let n = query.search.len();
    if n == 0 {
        return true;
    }
    let ghost sv = views(query.search@);
    for k in 0..n
        invariant
            n == query.search@.len(),
            n > 0,
            sv == views(query.search@),
            !(is_thumbnail && !query.thumbnails),
            forall|j: int| 0 <= j < k ==> !contains_sub(imageid@, #[trigger] sv[j]),
    {
        if str_contains(imageid, query.search[k].as_str()) {
            assert(sv[k as int] == query.search@[k as int]@);
            assert(contains_sub(imageid@, sv[k as int]));
            assert(sv.len() != 0);
            return true;
        }
    }
    false
}

/// Indices, in order, of the kept images among `items` (each a thumbnail flag
/// and an image id).
pub open spec fn kept_indices(
    items: Seq<(bool, Seq<char>)>,
    thumbnails: bool,
    search: Seq<Seq<char>>,
) -> Seq<usize>
    decreases items.len(),
{
    if items.len() == 0 {
        seq![]
    } else {
        let rest = kept_indices(items.drop_last(), thumbnails, search);
        if image_is_kept(items.last().0, items.last().1, thumbnails, search) {
            rest.push((items.len() - 1) as usize)
        } else {
            rest
        }
    }
}

pub open spec fn item_views(items: Seq<(bool, String)>) -> Seq<(bool, Seq<char>)> {
    items.map_values(|it: (bool, String)| (it.0, it.1@))
}

/// The images of a result page that a query keeps, by index.
pub fn select_images(items: &Vec<(bool, String)>, query: &RemoteQuery) -> (r: Vec<usize>)
    ensures
        r@ == kept_indices(item_views(items@), query.thumbnails, views(query.search@)),
{
    let mut out: Vec<usize> = Vec::new();
    let n = items.len();
    let ghost iv = item_views(items@);
    for i in 0..n
        invariant
            n == items@.len(),
            iv == item_views(items@),
            out@ == kept_indices(iv.take(i as int), query.thumbnails, views(query.search@)),
    {
        proof {
            assert(iv.take(i + 1).drop_last() =~= iv.take(i as int));
            assert(iv.take(i + 1).last() == iv[i as int]);
        }
        if image_passes_filter(items[i].0, items[i].1.as_str(), query) {
            out.push(i);
        }
    }
    proof {
        assert(iv.take(n as int) =~= iv);
    }
    out
}

/// The images a query keeps are listed once each, in the order of the
/// results, and no other image is listed.
pub proof fn kept_indices_are_the_kept_images(
    items: Seq<(bool, Seq<char>)>,
    thumbnails: bool,
    search: Seq<Seq<char>>,
)
    requires
        items.len() <= usize::MAX,
    ensures
        forall|k: int|
            0 <= k < kept_indices(items, thumbnails, search).len() ==> {
                let i = #[trigger] kept_indices(items, thumbnails, search)[k];
                i < items.len() && image_is_kept(items[i as int].0, items[i as int].1, thumbnails, search)
            },
        forall|k: int, l: int|
            0 <= k < l < kept_indices(items, thumbnails, search).len() ==> #[trigger] kept_indices(
                items,
                thumbnails,
                search,
            )[k] < #[trigger] kept_indices(items, thumbnails, search)[l],
        forall|i: int|
            0 <= i < items.len() && image_is_kept(#[trigger] items[i].0, items[i].1, thumbnails, search)
                ==> kept_indices(items, thumbnails, search).contains(i as usize),
    decreases items.len(),
{
    if items.len() > 0 {
        let rest = items.drop_last();
        kept_indices_are_the_kept_images(rest, thumbnails, search);
        let r = kept_indices(items, thumbnails, search);
        let rr = kept_indices(rest, thumbnails, search);
        assert forall|k: int| 0 <= k < r.len() implies {
            let i = #[trigger] r[k];
            i < items.len() && image_is_kept(items[i as int].0, items[i as int].1, thumbnails, search)
        } by {
            if k < rr.len() {
                assert(r[k] == rr[k]);
                assert(items[rr[k] as int] == rest[rr[k] as int]);
            } else {
                assert(items[items.len() - 1] == items.last());
            }
        }
        assert forall|k: int, l: int| 0 <= k < l < r.len() implies #[trigger] r[k] < #[trigger] r[l] by {
            if l < rr.len() {
                assert(r[k] == rr[k] && r[l] == rr[l]);
            } else {
                assert(r[k] == rr[k]);
            }
        }
        assert forall|i: int|
            0 <= i < items.len() && image_is_kept(#[trigger] items[i].0, items[i].1, thumbnails, search)
                implies r.contains(i as usize) by {
            if i < rest.len() {
                assert(items[i] == rest[i]);
                assert(rr.contains(i as usize));
                let w = choose|w: int| 0 <= w < rr.len() && rr[w] == i as usize;
                assert(r[w] == rr[w]);
            } else {
                assert(items[i] == items.last());
                assert(r.last() == i as usize);
                assert(r[r.len() - 1] == i as usize);
            }
        }
    }
}

/// Number of pages of `per_page` results that hold `total` results.
pub open spec fn page_count(total: int, per_page: int) -> int {
    (total + per_page - 1) / per_page
}

/// Pages needed for `total` results at `per_page` a page (rounded up).
pub fn pages_for(total: i32, per_page: i32) -> (r: i32)
    requires
        total >= 0,
        per_page > 0,
    ensures
        r == page_count(total as int, per_page as int),
        (r - 1) * per_page < total <= r * per_page,
{
    let t = total as i64;
    let p = per_page as i64;
    let q = (t + p - 1) / p;
    proof {
        let a: int = t + p - 1;
        let pi: int = p as int;
        let qi: int = a / pi;
        let ri: int = a % pi;
        vstd::arithmetic::div_mod::lemma_fundamental_div_mod(a, pi);
        vstd::arithmetic::div_mod::lemma_mod_pos_bound(a, pi);
        assert(pi * qi == qi * pi) by (nonlinear_arith);
        assert((qi - 1) * pi == qi * pi - pi) by (nonlinear_arith);
        assert(qi <= total as int || total == 0) by (nonlinear_arith)
            requires
                qi * pi + ri == a,
                a == total + pi - 1,
                0 <= ri < pi,
                pi >= 1,
                total >= 0,
        ;
        assert(qi >= 0) by (nonlinear_arith)
            requires
                qi * pi + ri == a,
                a >= 0,
                0 <= ri < pi,
                pi >= 1,
        ;
    }
    q as i32
}

/// The paging summary of a result page: whether pages follow the zero-based
/// `page` of the `pages_for(total_results, per_page)` pages.
pub fn stats_from_results(total_results: u32, page: u32, total_images: u32, per_page: i32) -> (r:
    RemoteStats)
    requires
        total_results <= i32::MAX,
        page <= i32::MAX,
        total_images <= i32::MAX,
        per_page > 0,
    ensures
        r.total_results == total_results,
        r.page == page,
        r.total_images == total_images,
        r.error_message@ == Seq::<char>::empty(),
        r.more == (page < page_count(total_results as int, per_page as int) - 1),
{
    let pages = pages_for(total_results as i32, per_page);
    RemoteStats {
        more: (page as i32) < pages - 1,
        error_message: String::new(),
        total_results: total_results as i32,
        page: page as i32,
        total_images: total_images as i32,
    }
}

/// A URI with query parameters appended: `?` before the first, `&` before
/// each other, each as `key=value`.
pub open spec fn with_params(base: Seq<char>, params: Seq<(Seq<char>, Seq<char>)>) -> Seq<char>
    decreases params.len(),
{
    if params.len() == 0 {
        base
    } else {
        let sep = if params.len() == 1 {
            "?"@
        } else {
            "&"@
        };
        with_params(base, params.drop_last()) + sep + params.last().0 + "="@ + params.last().1
    }
}

pub open spec fn param_views(p: Seq<(String, String)>) -> Seq<(Seq<char>, Seq<char>)> {
    p.map_values(|kv: (String, String)| (kv.0@, kv.1@))
}

/// Appends query parameters to a URI.
pub fn build_query_uri(base: &str, params: &Vec<(String, String)>) -> (r: String)
    ensures
        r@ == with_params(base@, param_views(params@)),
{
    let mut uri = to_owned_string(base);
    let n = params.len();
    let ghost pv = param_views(params@);
    for i in 0..n
        invariant
            n == params@.len(),
            pv == param_views(params@),
            uri@ == with_params(base@, pv.take(i as int)),
    {
        proof {
            assert(pv.take(i + 1).drop_last() =~= pv.take(i as int));
            assert(pv.take(i + 1).last() == pv[i as int]);
        }
        if i == 0 {
            uri.append("?");
        } else {
            uri.append("&");
        }
        uri.append(params[i].0.as_str());
        uri.append("=");
        uri.append(params[i].1.as_str());
    }
    proof {
        assert(pv.take(n as int) =~= pv);
    }
    uri
}

/// A query parameter from two string slices.
pub fn param(key: &str, value: &str) -> (r: (String, String))
    ensures
        r.0@ == key@,
        r.1@ == value@,
{
    (to_owned_string(key), to_owned_string(value))
}

/// A query parameter from a key and an owned value.
pub fn param_b(key: &str, value: String) -> (r: (String, String))
    ensures
        r.0@ == key@,
        r.1@ == value@,
{
    (to_owned_string(key), value)
}


/// Cells padded to their column widths and joined by single spaces, as a
/// listing row is printed.
pub open spec fn padded_row(cells: Seq<Seq<char>>, widths: Seq<usize>) -> Seq<char> {
    seq_join(Seq::new(cells.len(), |i: int| pad_right(cells[i], widths[i] as nat)), " "@)
}

/// Formats a listing row: each cell padded to its column's width.
pub fn format_row(cells: &Vec<String>, widths: &Vec<usize>) -> (r: String)
    requires
        cells.len() == widths.len(),
    ensures
        r@ == padded_row(views(cells@), widths@),
{
    let mut padded: Vec<String> = Vec::new();
    let n = cells.len();
    for i in 0..n
        invariant
            n == cells.len(),
            n == widths.len(),
            padded.len() == i,
            forall|j: int|
                0 <= j < i ==> #[trigger] padded@[j]@ == pad_right(cells@[j]@, widths@[j] as nat),
    {
        padded.push(pad_right_str(cells[i].as_str(), widths[i]));
    }
    let r = join_strings(&padded, " ");
    proof {
        reveal_strlit(" ");
        assert(padded@.map_values(|v: String| v@) =~= Seq::new(
            views(cells@).len(),
            |i: int| pad_right(views(cells@)[i], widths@[i] as nat),
        ));
    }
    r
}

/// The column titles of an image listing.
pub open spec fn listing_titles() -> Seq<Seq<char>> {
    seq![
        "ID"@,
        "Instrument"@,
        "Sol"@,
        "Image Date (UTC)"@,
        "Image Date (Mars)"@,
        "Site"@,
        "Drive"@,
        "Thumb"@,
        "Present"@,
    ]
}

/// The column titles of an image listing.
pub fn listing_title_cells() -> (r: Vec<String>)
    ensures
        views(r@) == listing_titles(),
{
    let r = strings_of(
        &[
            "ID",
            "Instrument",
            "Sol",
            "Image Date (UTC)",
            "Image Date (Mars)",
            "Site",
            "Drive",
            "Thumb",
            "Present",
        ],
    );
    assert(views(r@) =~= listing_titles());
    r
}

/// The header line of an image listing with the given column widths.
pub fn listing_header(widths: &Vec<usize>) -> (r: String)
    requires
        widths.len() == 9,
    ensures
        r@ == padded_row(listing_titles(), widths@),
{
    let cells = listing_title_cells();
    format_row(&cells, widths)
}

/// What a listing reports as its image count: the zero-based index of the
/// last image listed, or zero when none was.
pub fn last_listed_index(listed: usize) -> (r: usize)
    ensures
        r == if listed == 0 { 0 } else { listed - 1 },
{
    if listed == 0 {
        0
    } else {
        listed - 1
    }
}

} // verus!
