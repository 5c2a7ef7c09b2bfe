use mars_raw_utils::httpfetch::{HttpFetcher, DEFAULT_TIMEOUT};
use mars_raw_utils::jsonfetch::{request_for, JsonFetcher};
use mars_raw_utils::error::{file_found_local, mission_not_supported, not_downloading, Error};
use mars_raw_utils::m20;
use mars_raw_utils::m20remote::{legacy_lists_image, legacy_remote_params, make_instrument_map};
use mars_raw_utils::msl;
use mars_raw_utils::remotequery::{
    build_query_uri, format_row, image_passes_filter, last_listed_index, listing_header,
    listing_title_cells, pages_for, param, param_b, select_images, stats_from_results, RemoteQuery,
};

fn query() -> RemoteQuery {
    RemoteQuery {
        cameras: vec!["NAVCAM_LEFT".to_string(), "NAVCAM_RIGHT".to_string()],
        num_per_page: 100,
        page: None,
        minsol: 10,
        maxsol: 20,
        thumbnails: false,
        movie_only: false,
        list_only: true,
        search: vec![],
        only_new: false,
        product_types: vec![],
        output_path: ".".to_string(),
    }
}

fn pairs(v: &[(&str, &str)]) -> Vec<(String, String)> {
    v.iter().map(|(k, x)| (k.to_string(), x.to_string())).collect()
}

#[test]
fn m20_query_parameters() {
    let p = m20::fetch::query_params(&query());
    assert_eq!(
        p,
        pairs(&[
            ("feed", "raw_images"),
            ("category", "mars2020"),
            ("feedtype", "json"),
            ("ver", "1.2"),
            ("num", "100"),
            ("order", "sol desc"),
            ("search", "NAVCAM_LEFT%7CNAVCAM_RIGHT"),
            ("condition_2", "10:sol:gte"),
            ("condition_3", "20:sol:lte"),
        ])
    );
}

#[test]
fn m20_query_with_helicopter_page_and_extended() {
    let mut q = query();
    q.cameras = vec!["HELI_NAV".to_string()];
    q.page = Some(3);
    q.thumbnails = true;
    q.movie_only = true;
    q.product_types = vec!["ecz".to_string(), "edr".to_string()];
    q.minsol = -5;
    let p = m20::fetch::query_params(&q);
    assert_eq!(p[1], ("category".to_string(), "mars2020,ingenuity".to_string()));
    assert_eq!(p[7], ("condition_2".to_string(), "-5:sol:gte".to_string()));
    assert_eq!(p[9], ("page".to_string(), "3".to_string()));
    assert_eq!(
        p[10],
        (
            "extended".to_string(),
            "sample_type::thumbnail,product_id::ecv,product_id::ecz,product_id::edr".to_string()
        )
    );
    assert_eq!(p.len(), 11);
}

#[test]
fn m20_query_uri() {
    let mut q = query();
    q.cameras = vec!["MCZ_LEFT".to_string()];
    assert_eq!(
        m20::fetch::query_uri(&q),
        "https://mars.nasa.gov/rss/api/?feed=raw_images&category=mars2020&feedtype=json&ver=1.2&num=100&order=sol desc&search=MCZ_LEFT&condition_2=10:sol:gte&condition_3=20:sol:lte"
    );
}

#[test]
fn m20_remote_query_always_has_sample_type() {
    let p = m20::remote::remote_query_params(&query());
    assert_eq!(p[6], ("search".to_string(), "NAVCAM_LEFT|NAVCAM_RIGHT".to_string()));
    assert_eq!(p[9], ("extended".to_string(), "sample_type::full".to_string()));
    let mut q = query();
    q.movie_only = true;
    q.product_types = vec!["ecm".to_string()];
    let p2 = m20::remote::remote_query_params(&q);
    assert_eq!(
        p2[9],
        ("extended".to_string(), "sample_type::full,product_id::ecv,product_id::ecm".to_string())
    );
}

#[test]
fn msl_query_parameters() {
    let mut q = query();
    q.cameras = vec!["MAST_LEFT".to_string(), "MAHLI".to_string()];
    q.page = Some(0);
    let p = msl::fetch::query_params(&q);
    assert_eq!(
        p,
        pairs(&[
            ("condition_1", "msl:mission"),
            ("per_page", "100"),
            ("order", "sol desc,instrument_sort asc,sample_type_sort asc, date_taken desc"),
            ("search", "MAST_LEFT|MAHLI"),
            ("condition_2", "10:sol:gte"),
            ("condition_3", "20:sol:lte"),
            ("page", "0"),
        ])
    );
    let uri = msl::fetch::query_uri(&q);
    assert!(uri.starts_with("https://mars.nasa.gov/api/v1/raw_image_items/?condition_1=msl:mission&per_page=100"));
    assert!(uri.ends_with("&page=0"));
}

#[test]
fn uri_building() {
    let p = vec![param("a", "1"), param_b("b", "two".to_string())];
    assert_eq!(build_query_uri("http://h/x", &p), "http://h/x?a=1&b=two");
    assert_eq!(build_query_uri("http://h/x", &vec![]), "http://h/x");
}

#[test]
fn instrument_groups() {
    let m = m20::remote::make_instrument_map();
    assert_eq!(m.map.len(), 13);
    assert_eq!(m.get("NAVCAM").unwrap(), &vec!["NAVCAM_LEFT".to_string(), "NAVCAM_RIGHT".to_string()]);
    assert_eq!(m.get("EDLCAM").unwrap().len(), 6);
    assert!(m.get("NOPE").is_none());
    let f = m20::fetch::M20Fetch::new().make_instrument_map();
    assert_eq!(f.map.len(), 13);
    let s = msl::remote::make_instrument_map();
    assert_eq!(s.map.len(), 8);
    assert_eq!(s.get("MASTCAM").unwrap(), &vec!["MAST_LEFT".to_string(), "MAST_RIGHT".to_string()]);
    let sf = msl::fetch::MslFetch::new().make_instrument_map();
    assert_eq!(sf.get("HAZ_FRONT").unwrap()[0], "FHAZ_RIGHT_A");
    let legacy = make_instrument_map();
    assert_eq!(legacy.map.len(), 7);
    assert_eq!(legacy.map[6].0, "WATSON");
    assert_eq!(legacy.map[6].1, vec!["SHERLOC_WATSON".to_string()]);
}

#[test]
fn legacy_parameters() {
    let cams = vec!["MCZ_LEFT".to_string(), "MCZ_RIGHT".to_string()];
    let p = legacy_remote_params(&cams, 50, 1, 0, 100, false, true);
    assert_eq!(
        p,
        pairs(&[
            ("feed", "raw_images"),
            ("category", "mars2020"),
            ("feedtype", "json"),
            ("num", "50"),
            ("page", "0"),
            ("order", "sol desc"),
            ("search", "MCZ_LEFT|MCZ_RIGHT"),
            ("condition_2", "0:sol:gte"),
            ("condition_3", "100:sol:lte"),
            ("extended", "sample_type::full,product_id::ecv,"),
        ])
    );
    let t = legacy_remote_params(&cams, 50, 3, 0, 100, true, true);
    assert_eq!(t[4].1, "2");
    assert_eq!(t[9].1, "sample_type::thumbnail,");
    let f = legacy_remote_params(&cams, 50, 3, 0, 100, false, false);
    assert_eq!(f[9].1, "sample_type::full,");
}

#[test]
fn legacy_listing_filter() {
    assert!(!legacy_lists_image(true, "ZL0_0001", false, ""));
    assert!(legacy_lists_image(true, "ZL0_0001", true, ""));
    assert!(legacy_lists_image(false, "ZL0_0001", false, "0001"));
    assert!(!legacy_lists_image(false, "ZL0_0001", false, "ZR"));
}

#[test]
fn image_filtering() {
    let mut q = query();
    assert!(image_passes_filter(false, "NLF_0100", &q));
    assert!(!image_passes_filter(true, "NLF_0100", &q));
    q.thumbnails = true;
    assert!(image_passes_filter(true, "NLF_0100", &q));
    q.search = vec!["XYZ".to_string(), "0100".to_string()];
    assert!(image_passes_filter(false, "NLF_0100", &q));
    assert!(!image_passes_filter(false, "NLF_0200", &q));
}

#[test]
fn image_selection_keeps_order() {
    let mut q = query();
    q.search = vec!["_A".to_string()];
    let items = vec![
        (false, "X_A1".to_string()),
        (true, "X_A2".to_string()),
        (false, "X_B3".to_string()),
        (false, "Y_A4".to_string()),
    ];
    assert_eq!(select_images(&items, &q), vec![0, 3]);
    q.thumbnails = true;
    assert_eq!(select_images(&items, &q), vec![0, 1, 3]);
    assert!(select_images(&vec![], &q).is_empty());
}

#[test]
fn paging() {
    assert_eq!(pages_for(0, 100), 0);
    assert_eq!(pages_for(1, 100), 1);
    assert_eq!(pages_for(100, 100), 1);
    assert_eq!(pages_for(101, 100), 2);
    assert_eq!(pages_for(250, 50), 5);
    let s = stats_from_results(250, 1, 240, 100);
    assert!(s.more);
    assert_eq!(s.total_results, 250);
    assert_eq!(s.page, 1);
    assert_eq!(s.total_images, 240);
    assert_eq!(s.error_message, "");
    let last = stats_from_results(250, 2, 240, 100);
    assert!(!last.more);
}

#[test]
fn listing_rows() {
    let cells = vec!["ab".to_string(), "c".to_string(), "longer".to_string()];
    assert_eq!(format_row(&cells, &vec![4, 3, 2]), "ab   c   longer");
    let titles = listing_title_cells();
    assert_eq!(titles[0], "ID");
    assert_eq!(titles[8], "Present");
    let h = listing_header(&vec![3, 11, 4, 17, 18, 5, 6, 6, 7]);
    assert_eq!(h, "ID  Instrument  Sol  Image Date (UTC)  Image Date (Mars)  Site  Drive  Thumb  Present");
}

#[test]
fn mission_headers() {
    let m = m20::remote::header_line();
    assert_eq!(
        m,
        format!(
            "{:54} {:25} {:6} {:27} {:27} {:6} {:6} {:7} {:10}",
            "ID", "Instrument", "Sol", "Image Date (UTC)", "Image Date (Mars)", "Site", "Drive", "Thumb", "Present"
        )
    );
    let s = msl::remote::header_line();
    assert_eq!(
        s,
        format!(
            "{:37} {:15} {:6} {:20} {:27} {:6} {:6} {:7} {:10}",
            "ID", "Instrument", "Sol", "Image Date (UTC)", "Image Date (Mars)", "Site", "Drive", "Thumb", "Present"
        )
    );
}

#[test]
fn listing_count_is_last_index() {
    assert_eq!(last_listed_index(0), 0);
    assert_eq!(last_listed_index(1), 0);
    assert_eq!(last_listed_index(7), 6);
}

#[test]
fn optional_listing_fields() {
    assert_eq!(msl::remote::null_to_str(&None), "");
    assert_eq!(msl::remote::null_to_str(&Some("Sol-01000M10:20:30".to_string())), "Sol-01000M10:20:30");
}

#[test]
fn error_messages() {
    let e = file_found_local("/tmp/a.png");
    assert!(matches!(e, Error::FileFoundLocal(_)));
    assert_eq!(e.message(), "File exists on destination filesystem: /tmp/a.png");
    let m = mission_not_supported("mer");
    assert!(matches!(m, Error::MissionNotSupported(_)));
    assert_eq!(m.message(), "Mission not supported: mer");
    let n = not_downloading();
    assert!(matches!(n, Error::NotDownloading(_)));
    assert_eq!(n.message(), "Skipping download; User requested to list only");
    assert_eq!(Error::ParseFailure("bad".to_string()).message(), "bad");
}

#[test]
fn latest_data_getters() {
    let d = msl::fetch::MslLatestData {
        latest: "2024-01-01".to_string(),
        latest_sol: 4000,
        latest_sols: vec![3999, 4000],
        new_count: 12,
        sol_count: 2,
        total: 1234,
    };
    let l = msl::fetch::MslLatest { success: true, latest_data: d };
    assert_eq!(l.latest(), "2024-01-01");
    assert_eq!(l.latest_sol(), 4000);
    assert_eq!(l.latest_sols(), vec![3999, 4000]);
    assert_eq!(l.new_count(), 12);
    assert_eq!(l.sol_count(), 2);
    assert_eq!(l.total(), 1234);
    let m = m20::fetch::M20LatestData {
        latest: "x".to_string(),
        latest_sol: 900,
        latest_sols: vec![900],
        new_count: 1,
        sol_count: 1,
        total: 55,
        result_type: "latest".to_string(),
    };
    assert_eq!(m.latest(), "x");
    assert_eq!(m.latest_sol(), 900);
    assert_eq!(m.latest_sols(), vec![900]);
    assert_eq!(m.new_count(), 1);
    assert_eq!(m.sol_count(), 1);
    assert_eq!(m.total(), 55);
}

#[test]
fn fetcher_normalises_its_uri() {
    let mut f = HttpFetcher::new("https://mars.nasa.gov").unwrap();
    assert_eq!(f.uri, "https://mars.nasa.gov/");
    assert_eq!(f.numparams, 0);
    assert_eq!(f.timeout, DEFAULT_TIMEOUT);
    assert!(f.param("order", "sol desc"));
    assert_eq!(f.uri, "https://mars.nasa.gov/?order=sol%20desc");
    assert!(f.param("search", "A|B"));
    assert_eq!(f.uri, "https://mars.nasa.gov/?order=sol%20desc&search=A|B");
    assert_eq!(f.numparams, 2);
    f.set_timeout(5);
    assert_eq!(f.timeout, 5);
    assert!(HttpFetcher::new("no scheme here").is_none());
}

#[test]
fn search_requests() {
    let mut q = query();
    q.cameras = vec!["MCZ_LEFT".to_string()];
    let r = m20::fetch::request(&q).unwrap();
    assert_eq!(
        r.fetcher.uri,
        "https://mars.nasa.gov/rss/api/?feed=raw_images&category=mars2020&feedtype=json&ver=1.2&num=100&order=sol%20desc&search=MCZ_LEFT&condition_2=10:sol:gte&condition_3=20:sol:lte"
    );
    assert_eq!(r.fetcher.numparams, 9);
    let s = msl::fetch::request(&q).unwrap();
    assert!(s.fetcher.uri.contains("order=sol%20desc,instrument_sort%20asc"));
    let t = m20::remote::request(&q).unwrap();
    assert!(t.fetcher.uri.ends_with("&extended=sample_type::full"));
    assert!(request_for("bad", &vec![]).is_none());
    let mut j = JsonFetcher::new("https://x.org/api").unwrap();
    j.param("a", "1");
    assert_eq!(j.fetcher.uri, "https://x.org/api?a=1");
}
