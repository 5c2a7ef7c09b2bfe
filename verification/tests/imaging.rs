use mars_raw_utils::m20::ncamlevels::border_inset_windows;
use mars_raw_utils::inpaint::{fit_mask_to_image, infill_plan, InpaintMask, MaskCell};
use mars_raw_utils::m20::assemble::{
    determine_composite_size, is_supported_scale_factor, subframe_id_scale_factor_1,
    subframe_id_scale_factor_2, tile_id, TileCoordinates,
};
use mars_raw_utils::m20::ncamtile::{
    frame_match_pairs_scale_factor_1, frame_match_pairs_scale_factor_2, get_image_index_by_id,
    get_subframes_for_tile_id_pair, get_subframes_for_tile_id_pair_scale_factor_1,
    get_subframes_for_tile_id_pair_scale_factor_2, match_levels_with_pairs, BorderPair,
};
use mars_raw_utils::marsimage::{
    calc_histogram, compute_destretch_lut, destretch_buffer_with_lut, is_index_a_histogram_gap,
};

fn mask(width: usize, height: usize, v: &[i32]) -> InpaintMask {
    InpaintMask {
        width,
        height,
        cells: v
            .iter()
            .map(|x| if *x == 0 { MaskCell::Zero } else if *x > 0 { MaskCell::Positive } else { MaskCell::Other })
            .collect(),
    }
}

fn steps(m: &InpaintMask) -> Vec<(usize, usize, Vec<(usize, usize)>)> {
    infill_plan(m).into_iter().map(|s| (s.x, s.y, s.window)).collect()
}

#[test]
fn inpaint_single_pixel() {
    let m = mask(3, 3, &[0, 0, 0, 0, 1, 0, 0, 0, 0]);
    assert_eq!(
        steps(&m),
        vec![(1, 1, vec![(0, 0), (1, 0), (2, 0), (0, 1), (2, 1), (0, 2), (1, 2), (2, 2)])]
    );
}

#[test]
fn inpaint_walks_to_best_neighbour() {
    let m = mask(3, 2, &[0, 1, 1, 0, 0, 0]);
    assert_eq!(
        steps(&m),
        vec![(1, 0, vec![(0, 0), (0, 1), (1, 1), (2, 1)]), (2, 0, vec![(1, 0), (1, 1), (2, 1)])]
    );
    let wide = mask(4, 3, &[0, 0, 0, 0, 0, 1, 1, 0, 0, 0, 0, 0]);
    assert_eq!(
        steps(&wide),
        vec![
            (1, 1, vec![(0, 0), (1, 0), (2, 0), (0, 1), (0, 2), (1, 2), (2, 2)]),
            (2, 1, vec![(1, 0), (2, 0), (3, 0), (1, 1), (3, 1), (1, 2), (2, 2), (3, 2)]),
        ]
    );
}

#[test]
fn inpaint_fully_masked_square() {
    let m = mask(2, 2, &[1, 1, 1, 1]);
    assert_eq!(
        steps(&m),
        vec![
            (0, 0, vec![]),
            (1, 0, vec![(0, 0)]),
            (1, 1, vec![(0, 0), (1, 0)]),
            (0, 1, vec![(0, 0), (1, 0), (1, 1)]),
        ]
    );
}

#[test]
fn inpaint_needs_a_positive_start() {
    let m = mask(3, 2, &[0, -1, 0, 0, 0, 0]);
    assert!(steps(&m).is_empty());
    let empty = mask(0, 0, &[]);
    assert!(steps(&empty).is_empty());
}

#[test]
fn inpaint_plan_fills_each_masked_pixel_once() {
    let m = mask(5, 4, &[0, 1, 1, 0, 0, 1, 0, 0, 1, 0, 0, 0, 1, 1, 0, 0, 0, 0, 0, 1]);
    let plan = steps(&m);
    let mut seen = vec![];
    for (x, y, w) in &plan {
        assert!(m.cells[y * 5 + x] != MaskCell::Zero);
        assert!(!seen.contains(&(*x, *y)));
        assert!(!w.contains(&(*x, *y)));
        seen.push((*x, *y));
    }
    for i in 0..20 {
        if m.cells[i] == MaskCell::Positive {
            assert!(seen.contains(&(i % 5, i / 5)));
        }
    }
}

#[test]
fn mask_fit_crops_centre() {
    let m = mask(4, 4, &[1, 2, 3, 4, 5, 0, 0, 8, 9, 0, -1, 12, 13, 14, 15, 16]);
    let f = fit_mask_to_image(&m, 2, 2);
    assert_eq!(f.width, 2);
    assert_eq!(f.height, 2);
    assert_eq!(f.cells, vec![MaskCell::Zero, MaskCell::Zero, MaskCell::Zero, MaskCell::Other]);
    let same = fit_mask_to_image(&m, 4, 4);
    assert_eq!(same.width, 4);
    assert_eq!(same.cells, m.cells);
    let offset = fit_mask_to_image(&m, 3, 2);
    assert_eq!(offset.cells, vec![MaskCell::Positive, MaskCell::Zero, MaskCell::Zero, MaskCell::Positive, MaskCell::Zero, MaskCell::Other]);
}

#[test]
fn histogram_and_gaps() {
    let values = vec![0, 2, 2, 4, 254, 10];
    let h = calc_histogram(&values);
    assert_eq!(h.len(), 255);
    assert_eq!(h[0], 1);
    assert_eq!(h[2], 2);
    assert_eq!(h[1], 0);
    assert_eq!(h[254], 1);
    assert!(is_index_a_histogram_gap(&h, 1));
    assert!(is_index_a_histogram_gap(&h, 3));
    assert!(!is_index_a_histogram_gap(&h, 5));
    assert!(!is_index_a_histogram_gap(&h, 0));
    assert!(!is_index_a_histogram_gap(&h, 254));
}

#[test]
fn destretch_closes_gaps() {
    let values = vec![0, 2, 4, 6, 7];
    let h = calc_histogram(&values);
    let lut = compute_destretch_lut(&h);
    assert_eq!(&lut[0..9], &[0, 0, 1, 1, 2, 2, 3, 4, 5]);
    let out = destretch_buffer_with_lut(&values, &lut);
    assert_eq!(out, vec![0, 1, 2, 3, 4]);
    for i in 0..254 {
        assert!(lut[i] <= lut[i + 1] && lut[i + 1] <= lut[i] + 1);
    }
}

#[test]
fn tile_ids_and_sizes() {
    assert_eq!(subframe_id_scale_factor_1(0, 0), 1);
    assert_eq!(subframe_id_scale_factor_1(1, 0), 5);
    assert_eq!(subframe_id_scale_factor_1(3, 3), 16);
    assert_eq!(subframe_id_scale_factor_2(1, 1), 10);
    assert_eq!(tile_id(1, 2, 1), Some(10));
    assert_eq!(tile_id(2, 0, 1), Some(7));
    assert_eq!(tile_id(4, 0, 0), None);
    assert!(is_supported_scale_factor(1));
    assert!(is_supported_scale_factor(2));
    assert!(!is_supported_scale_factor(4));
    assert_eq!(determine_composite_size(1), Some((5120, 3840)));
    assert_eq!(determine_composite_size(2), Some((2560, 1920)));
    assert_eq!(determine_composite_size(4), Some((1280, 960)));
    assert_eq!(determine_composite_size(3), None);
    let t = TileCoordinates::new(1281, 961, 1280, 960, 1);
    assert_eq!(t.bottom_right_x, 2561);
    assert_eq!(t.bottom_right_y, 1921);
    assert_eq!(t.paste_position(), (1280, 960));
}

#[test]
fn tile_border_pairs() {
    assert_eq!(get_subframes_for_tile_id_pair_scale_factor_1(1, 5), Some(BorderPair::RightLeft));
    assert_eq!(get_subframes_for_tile_id_pair_scale_factor_1(15, 16), Some(BorderPair::BottomTop));
    assert_eq!(get_subframes_for_tile_id_pair_scale_factor_1(4, 5), None);
    assert_eq!(get_subframes_for_tile_id_pair_scale_factor_2(7, 10), Some(BorderPair::RightLeft));
    assert_eq!(get_subframes_for_tile_id_pair_scale_factor_2(4, 10), Some(BorderPair::BottomTop));
    assert_eq!(get_subframes_for_tile_id_pair(1, 2, 1), Some(BorderPair::BottomTop));
    assert_eq!(get_subframes_for_tile_id_pair(1, 2, 4), None);
    for (t, a) in frame_match_pairs_scale_factor_1() {
        assert!(get_subframes_for_tile_id_pair(t, a, 1).is_some());
    }
    for (t, a) in frame_match_pairs_scale_factor_2() {
        assert!(get_subframes_for_tile_id_pair(t, a, 2).is_some());
    }
}

#[test]
fn match_order_starts_from_the_anchor() {
    let p = frame_match_pairs_scale_factor_1();
    assert_eq!(p.len(), 15);
    let mut adjusted = vec![1usize];
    for (t, a) in &p {
        assert!(adjusted.contains(t));
        assert!(!adjusted.contains(a));
        adjusted.push(*a);
    }
    assert_eq!(adjusted.len(), 16);
}

#[test]
fn matching_plan_by_index() {
    let ids = vec![4, 1, 10, 7, 1];
    assert_eq!(get_image_index_by_id(&ids, 1), Some(1));
    assert_eq!(get_image_index_by_id(&ids, 3), None);
    let plan = match_levels_with_pairs(&ids, &frame_match_pairs_scale_factor_2());
    assert_eq!(plan, vec![(1, 0), (1, 3), (0, 2)]);
    assert_eq!(mars_raw_utils::m20::ncamtile::match_levels(&ids), plan);
    let partial = match_levels_with_pairs(&vec![1, 4], &frame_match_pairs_scale_factor_2());
    assert_eq!(partial, vec![(0, 1)]);
    let levels = mars_raw_utils::m20::ncamlevels::match_levels(&ids, &vec![2, 2, 2, 2, 2]);
    assert_eq!(levels, vec![(1, 0), (1, 3), (3, 2)]);
    assert!(mars_raw_utils::m20::ncamlevels::match_levels(&vec![], &vec![]).is_empty());
    assert!(mars_raw_utils::m20::ncamlevels::match_levels(&ids, &vec![4, 2, 2, 2, 2]).is_empty());
}

#[test]
fn matched_pairs_are_grid_neighbours() {
    for (t, a) in frame_match_pairs_scale_factor_1() {
        match get_subframes_for_tile_id_pair(t, a, 1).unwrap() {
            BorderPair::RightLeft => assert_eq!(a, t + 4),
            BorderPair::BottomTop => {
                assert_eq!(a, t + 1);
                assert_ne!(t % 4, 0);
            }
        }
    }
    let p2 = frame_match_pairs_scale_factor_2();
    assert_eq!(p2, vec![(1, 4), (1, 7), (4, 10)]);
    for (t, a) in p2 {
        match get_subframes_for_tile_id_pair(t, a, 2).unwrap() {
            BorderPair::RightLeft => assert_eq!(a, t + 3),
            BorderPair::BottomTop => assert_eq!(a, t + 6),
        }
    }
}

#[test]
fn grid_ids_are_distinct() {
    let mut ids = vec![];
    for x in 0..4 {
        for y in 0..4 {
            ids.push(subframe_id_scale_factor_1(x, y));
        }
    }
    ids.sort();
    assert_eq!(ids, (1..=16).collect::<Vec<usize>>());
    let mut ids2 = vec![];
    for x in 0..2 {
        for y in 0..2 {
            ids2.push(subframe_id_scale_factor_2(x, y));
        }
    }
    ids2.sort();
    assert_eq!(ids2, vec![1, 4, 7, 10]);
}

#[test]
fn histogram_total_is_value_count() {
    let values: Vec<usize> = (0..1000).map(|i| (i * 7) % 255).collect();
    let h = calc_histogram(&values);
    assert_eq!(h.iter().sum::<u64>(), 1000);
}

#[test]
fn level_matching_windows_keep_clear_of_edges() {
    let (t, a) = border_inset_windows(BorderPair::RightLeft, (1288, 968), (1290, 970));
    assert_eq!(t, (1274, 2, 12, 964));
    assert_eq!(a, (2, 2, 12, 966));
    let (t, a) = border_inset_windows(BorderPair::BottomTop, (1288, 968), (1290, 970));
    assert_eq!(t, (2, 954, 1284, 12));
    assert_eq!(a, (2, 2, 1286, 12));
}
