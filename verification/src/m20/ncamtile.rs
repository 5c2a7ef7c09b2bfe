//! Brightness matching of neighbouring Mars 2020 NavCam tiles.

use vstd::prelude::*;
use crate::m20::assemble::{tile_id_scale_factor_1, tile_id_scale_factor_2};

verus! {

/// Which borders of two neighbouring tiles overlap.
#[derive(Debug, Copy, Clone, PartialEq, Eq, Structural)]
pub enum BorderPair {
    /// The target's right border meets the adjusted tile's left border.
    RightLeft,
    /// The target's bottom border meets the adjusted tile's top border.
    BottomTop,
}

/// Overlapping borders of two scale factor 1 tiles; `None` for tiles that are
/// not neighbours in the matching order.
pub open spec fn borders_scale_factor_1(target: usize, adjust: usize) -> Option<BorderPair> {
    let p = (target, adjust);
    if p == (1usize, 5usize) || p == (5usize, 9usize) || p == (9usize, 13usize) {
        Some(BorderPair::RightLeft)
    } else if p == (1usize, 2usize) || p == (2usize, 3usize) || p == (3usize, 4usize) || p == (
        5usize,
        6usize,
    ) || p == (6usize, 7usize) || p == (7usize, 8usize) || p == (9usize, 10usize) || p == (
        10usize,
        11usize,
    ) || p == (11usize, 12usize) || p == (13usize, 14usize) || p == (14usize, 15usize) || p == (
        15usize,
        16usize,
    ) {
        Some(BorderPair::BottomTop)
    } else {
        None
    }
}

/// Overlapping borders of two scale factor 2 tiles; `None` for tiles that are
/// not neighbours.
pub open spec fn borders_scale_factor_2(target: usize, adjust: usize) -> Option<BorderPair> {
    let p = (target, adjust);
    if p == (1usize, 4usize) || p == (7usize, 10usize) {
        Some(BorderPair::RightLeft)
    } else if p == (1usize, 7usize) || p == (4usize, 10usize) {
        Some(BorderPair::BottomTop)
    } else {
        None
    }
}

/// Width of the overlapping border strip of neighbouring tiles.
pub const BORDER_OVERLAP: usize = 16;

/// The windows `(x, y, width, height)` of the overlapping strips of a target
/// tile and the tile adjusted to it: the target's right and the adjusted
/// tile's left 16 columns, or the target's bottom and the adjusted tile's top
/// 16 rows.
pub open spec fn overlap_windows(
    pair: BorderPair,
    target: (usize, usize),
    adjust: (usize, usize),
) -> ((usize, usize, usize, usize), (usize, usize, usize, usize)) {
    match pair {
        BorderPair::RightLeft => (
            ((target.0 - 16) as usize, 0usize, 16usize, target.1),
            (0usize, 0usize, 16usize, adjust.1),
        ),
        BorderPair::BottomTop => (
            (0usize, (target.1 - 16) as usize, target.0, 16usize),
            (0usize, 0usize, adjust.0, 16usize),
        ),
    }
}

/// The strips of two tiles that are compared to match their levels; each
/// tile is given as `(width, height)`.
pub fn border_overlap_windows(
    pair: BorderPair,
    target: (usize, usize),
    adjust: (usize, usize),
) -> (r: ((usize, usize, usize, usize), (usize, usize, usize, usize)))
    requires
        target.0 >= BORDER_OVERLAP,
        target.1 >= BORDER_OVERLAP,
    ensures
        r == overlap_windows(pair, target, adjust),
{
    match pair {
        BorderPair::RightLeft => (
            (target.0 - BORDER_OVERLAP, 0, BORDER_OVERLAP, target.1),
            (0, 0, BORDER_OVERLAP, adjust.1),
        ),
        BorderPair::BottomTop => (
            (0, target.1 - BORDER_OVERLAP, target.0, BORDER_OVERLAP),
            (0, 0, adjust.0, BORDER_OVERLAP),
        ),
    }
}

/// The borders to compare for a pair of scale factor 1 tiles.
pub fn get_subframes_for_tile_id_pair_scale_factor_1(target_tile_id: usize, adjust_tile_id: usize) -> (r:
    Option<BorderPair>)
    ensures
        r == borders_scale_factor_1(target_tile_id, adjust_tile_id),
{
    let t = target_tile_id;
    let a = adjust_tile_id;
    if (t == 1 && a == 5) || (t == 5 && a == 9) || (t == 9 && a == 13) {
        Some(BorderPair::RightLeft)
    } else if (t == 1 && a == 2) || (t == 2 && a == 3) || (t == 3 && a == 4) || (t == 5 && a == 6)
        || (t == 6 && a == 7) || (t == 7 && a == 8) || (t == 9 && a == 10) || (t == 10 && a == 11)
        || (t == 11 && a == 12) || (t == 13 && a == 14) || (t == 14 && a == 15) || (t == 15 && a
        == 16) {
        Some(BorderPair::BottomTop)
    } else {
        None
    }
}

/// The borders to compare for a pair of scale factor 2 tiles.
pub fn get_subframes_for_tile_id_pair_scale_factor_2(target_tile_id: usize, adjust_tile_id: usize) -> (r:
    Option<BorderPair>)
    ensures
        r == borders_scale_factor_2(target_tile_id, adjust_tile_id),
{
    let t = target_tile_id;
    let a = adjust_tile_id;
    if (t == 1 && a == 4) || (t == 7 && a == 10) {
        Some(BorderPair::RightLeft)
    } else if (t == 1 && a == 7) || (t == 4 && a == 10) {
        Some(BorderPair::BottomTop)
    } else {
        None
    }
}

/// The borders to compare for a pair of tiles at a scale factor; `None` for
/// unsupported scale factors and for tiles that are not neighbours.
pub fn get_subframes_for_tile_id_pair(target_tile_id: usize, adjust_tile_id: usize, scale_factor: u32) -> (r:
    Option<BorderPair>)
    ensures
        r == (if scale_factor == 1 {
            borders_scale_factor_1(target_tile_id, adjust_tile_id)
        } else if scale_factor == 2 {
            borders_scale_factor_2(target_tile_id, adjust_tile_id)
        } else {
            None
        }),
{
    if scale_factor == 1 {
        get_subframes_for_tile_id_pair_scale_factor_1(target_tile_id, adjust_tile_id)
    } else if scale_factor == 2 {
        get_subframes_for_tile_id_pair_scale_factor_2(target_tile_id, adjust_tile_id)
    } else {
        None
    }
}

/// The order in which scale factor 1 tiles are matched: down the first row of
/// the grid, then along each column.
pub open spec fn match_pairs_scale_factor_1() -> Seq<(usize, usize)> {
    seq![
        (1usize, 5usize),
        (5usize, 9usize),
        (9usize, 13usize),
        (1usize, 2usize),
        (2usize, 3usize),
        (3usize, 4usize),
        (5usize, 6usize),
        (6usize, 7usize),
        (7usize, 8usize),
        (9usize, 10usize),
        (10usize, 11usize),
        (11usize, 12usize),
        (13usize, 14usize),
        (14usize, 15usize),
        (15usize, 16usize),
    ]
}

/// The order in which scale factor 2 tiles are matched.
pub open spec fn match_pairs_scale_factor_2() -> Seq<(usize, usize)> {
    seq![(1usize, 4usize), (1usize, 7usize), (4usize, 10usize)]
}

/// The matching order of scale factor 1 tiles.
pub fn frame_match_pairs_scale_factor_1() -> (r: Vec<(usize, usize)>)
    ensures
        r@ == match_pairs_scale_factor_1(),
{
    let r = vec![
        (1, 5),
        (5, 9),
        (9, 13),
        (1, 2),
        (2, 3),
        (3, 4),
        (5, 6),
        (6, 7),
        (7, 8),
        (9, 10),
        (10, 11),
        (11, 12),
        (13, 14),
        (14, 15),
        (15, 16),
    ];
    assert(r@ =~= match_pairs_scale_factor_1());
    r
}

/// The matching order of scale factor 2 tiles.
pub fn frame_match_pairs_scale_factor_2() -> (r: Vec<(usize, usize)>)
    ensures
        r@ == match_pairs_scale_factor_2(),
{
    let r = vec![(1, 4), (1, 7), (4, 10)];
    assert(r@ =~= match_pairs_scale_factor_2());
    r
}

/// The first index of a tile with the given id.
pub open spec fn first_index_of(ids: Seq<usize>, id: usize) -> Option<int>
    decreases ids.len(),
{
    if ids.len() == 0 {
        None
    } else {
        match first_index_of(ids.drop_last(), id) {
            Some(i) => Some(i),
            None => if ids.last() == id {
                Some(ids.len() - 1)
            } else {
                None
            },
        }
    }
}

/// Finds the first tile with the given id.
pub fn get_image_index_by_id(tile_ids: &Vec<usize>, tile_id: usize) -> (r: Option<usize>)
    ensures
        match r {
            Some(i) => first_index_of(tile_ids@, tile_id) == Some(i as int),
            None => first_index_of(tile_ids@, tile_id) is None,
        },
{
    let n = tile_ids.len();
    for i in 0..n
        invariant
            n == tile_ids@.len(),
            first_index_of(tile_ids@.take(i as int), tile_id) is None,
    {
        proof {
            assert(tile_ids@.take(i + 1).drop_last() =~= tile_ids@.take(i as int));
        }
        if tile_ids[i] == tile_id {
            proof {
                lemma_first_index_prefix(tile_ids@, i as int, tile_id);
            }
            return Some(i);
        }
    }
    proof {
        assert(tile_ids@.take(n as int) =~= tile_ids@);
    }
    None
}

/// A first occurrence found in a prefix is the first occurrence overall.
proof fn lemma_first_index_prefix(ids: Seq<usize>, i: int, id: usize)
    requires
        0 <= i < ids.len(),
        ids[i] == id,
        first_index_of(ids.take(i), id) is None,
    ensures
        first_index_of(ids, id) == Some(i),
    decreases ids.len(),
{
    assert(ids.take(i + 1).drop_last() =~= ids.take(i));
    if i + 1 < ids.len() {
        lemma_first_index_extend(ids, i + 1, id);
    } else {
        assert(ids.take(i + 1) =~= ids);
    }
    assert(first_index_of(ids.take(i + 1), id) == Some(i));
    if i + 1 < ids.len() {
        lemma_first_index_extend(ids, i + 1, id);
    }
}

/// Once a prefix holds the id, longer prefixes give the same first index.
proof fn lemma_first_index_extend(ids: Seq<usize>, k: int, id: usize)
    requires
        0 <= k <= ids.len(),
    ensures
        first_index_of(ids.take(k), id) is Some ==> first_index_of(ids, id) == first_index_of(
            ids.take(k),
            id,
        ),
    decreases ids.len() - k,
{
    if k < ids.len() {
        assert(ids.take(k + 1).drop_last() =~= ids.take(k));
        lemma_first_index_extend(ids, k + 1, id);
    } else {
        assert(ids.take(k) =~= ids);
    }
}

/// The tile pairs, by index, whose brightness is matched: for each id pair in
/// order, the first tiles with those ids, when both are present.
pub open spec fn matching_plan(ids: Seq<usize>, pairs: Seq<(usize, usize)>) -> Seq<(usize, usize)>
    decreases pairs.len(),
{
    if pairs.len() == 0 {
        seq![]
    } else {
        let rest = matching_plan(ids, pairs.drop_last());
        let p = pairs.last();
        match (first_index_of(ids, p.0), first_index_of(ids, p.1)) {
            (Some(t), Some(a)) => rest.push((t as usize, a as usize)),
            _ => rest,
        }
    }
}

/// The index pairs of `matching_plan`.
pub fn match_levels_with_pairs(tile_ids: &Vec<usize>, pair_list: &Vec<(usize, usize)>) -> (r: Vec<
    (usize, usize),
>)
    ensures
        r@ == matching_plan(tile_ids@, pair_list@),
{
    let mut out: Vec<(usize, usize)> = Vec::new();
    let n = pair_list.len();
    for i in 0..n
        invariant
            n == pair_list@.len(),
            out@ == matching_plan(tile_ids@, pair_list@.take(i as int)),
    {
        proof {
            assert(pair_list@.take(i + 1).drop_last() =~= pair_list@.take(i as int));
            assert(pair_list@.take(i + 1).last() == pair_list@[i as int]);
        }
        let target = get_image_index_by_id(tile_ids, pair_list[i].0);
        let adjust = get_image_index_by_id(tile_ids, pair_list[i].1);
        match (target, adjust) {
            (Some(t), Some(a)) => {
                out.push((t, a));
            },
            _ => {},
        }
    }
    proof {
        assert(pair_list@.take(n as int) =~= pair_list@);
    }
    out
}

/// The brightness matching plan of a set of tiles, in the fixed scale factor 2
/// order.
pub fn match_levels(tile_ids: &Vec<usize>) -> (r: Vec<(usize, usize)>)
    ensures
        r@ == matching_plan(tile_ids@, match_pairs_scale_factor_2()),
{
    let pairs = frame_match_pairs_scale_factor_2();
    match_levels_with_pairs(tile_ids, &pairs)
}


/// Every pair's target is the anchor tile 1 or a tile adjusted by an earlier
/// pair, so brightness spreads out from tile 1.
pub open spec fn anchored_order(pairs: Seq<(usize, usize)>) -> bool {
    forall|i: int|
        0 <= i < pairs.len() ==> (#[trigger] pairs[i]).0 == 1 || exists|j: int|
            0 <= j < i && (#[trigger] pairs[j]).1 == pairs[i].0
}

/// No pair adjusts the anchor, and no tile is adjusted twice.
pub open spec fn adjusted_once(pairs: Seq<(usize, usize)>) -> bool {
    &&& forall|i: int| 0 <= i < pairs.len() ==> (#[trigger] pairs[i]).1 != 1
    &&& forall|i: int, j: int|
        0 <= i < j < pairs.len() ==> (#[trigger] pairs[i]).1 != (#[trigger] pairs[j]).1
}

/// The matching order of scale factor 1 tiles starts from tile 1, adjusts
/// each other tile of the 4x4 grid once, and only pairs tiles with an overlap.
pub proof fn scale_factor_1_order_is_anchored()
    ensures
        anchored_order(match_pairs_scale_factor_1()),
        adjusted_once(match_pairs_scale_factor_1()),
        match_pairs_scale_factor_1().len() == 15,
        forall|i: int|
            0 <= i < match_pairs_scale_factor_1().len() ==> borders_scale_factor_1(
                (#[trigger] match_pairs_scale_factor_1()[i]).0,
                match_pairs_scale_factor_1()[i].1,
            ) is Some,
{
    let p = match_pairs_scale_factor_1();
    assert forall|i: int| 0 <= i < p.len() implies (#[trigger] p[i]).0 == 1 || exists|j: int|
        0 <= j < i && (#[trigger] p[j]).1 == p[i].0 by {
        if i == 1 || i == 2 {
            assert(p[i - 1].1 == p[i].0);
        } else if i == 4 || i == 5 || i == 7 || i == 8 || i == 10 || i == 11 || i == 13 || i == 14 {
            assert(p[i - 1].1 == p[i].0);
        } else if i == 6 {
            assert(p[0].1 == p[i].0);
        } else if i == 9 {
            assert(p[1].1 == p[i].0);
        } else if i == 12 {
            assert(p[2].1 == p[i].0);
        }
    }
    assert forall|i: int, j: int| 0 <= i < j < p.len() implies (#[trigger] p[i]).1 != (
    #[trigger] p[j]).1 by {
        assert(i == 0 || i == 1 || i == 2 || i == 3 || i == 4 || i == 5 || i == 6 || i == 7 || i
            == 8 || i == 9 || i == 10 || i == 11 || i == 12 || i == 13);
        assert(j == 1 || j == 2 || j == 3 || j == 4 || j == 5 || j == 6 || j == 7 || j == 8 || j
            == 9 || j == 10 || j == 11 || j == 12 || j == 13 || j == 14);
    }
}

/// The matching order of scale factor 2 tiles starts from tile 1, adjusts
/// each other tile of the 2x2 grid once, and only pairs tiles with an overlap.
pub proof fn scale_factor_2_order_is_anchored()
    ensures
        anchored_order(match_pairs_scale_factor_2()),
        adjusted_once(match_pairs_scale_factor_2()),
        match_pairs_scale_factor_2().len() == 3,
        forall|i: int|
            0 <= i < match_pairs_scale_factor_2().len() ==> borders_scale_factor_2(
                (#[trigger] match_pairs_scale_factor_2()[i]).0,
                match_pairs_scale_factor_2()[i].1,
            ) is Some,
{
    let p = match_pairs_scale_factor_2();
    assert forall|i: int| 0 <= i < p.len() implies (#[trigger] p[i]).0 == 1 || exists|j: int|
        0 <= j < i && (#[trigger] p[j]).1 == p[i].0 by {
        if i == 2 {
            assert(p[0].1 == p[i].0);
        }
    }
}

/// A first index lies inside the sequence.
proof fn lemma_first_index_bound(ids: Seq<usize>, id: usize)
    ensures
        first_index_of(ids, id) matches Some(i) ==> 0 <= i < ids.len(),
    decreases ids.len(),
{
    if ids.len() > 0 {
        lemma_first_index_bound(ids.drop_last(), id);
    }
}

/// Each step of a matching plan pairs the first tiles carrying the ids of one
/// pair of the order, and the steps keep the order of the pairs.
pub proof fn matching_plan_follows_pairs(ids: Seq<usize>, pairs: Seq<(usize, usize)>)
    requires
        ids.len() <= usize::MAX,
    ensures
        matching_plan(ids, pairs).len() <= pairs.len(),
        forall|k: int|
            0 <= k < matching_plan(ids, pairs).len() ==> {
                let step = #[trigger] matching_plan(ids, pairs)[k];
                exists|i: int|
                    0 <= i < pairs.len() && first_index_of(ids, (#[trigger] pairs[i]).0) == Some(
                        step.0 as int,
                    ) && first_index_of(ids, pairs[i].1) == Some(step.1 as int)
            },
        forall|t: usize, a: usize|
            #![trigger pairs.contains((t, a))]
            pairs.contains((t, a)) && first_index_of(ids, t) is Some && first_index_of(ids, a) is Some
                ==> matching_plan(ids, pairs).contains(
                (first_index_of(ids, t)->0 as usize, first_index_of(ids, a)->0 as usize),
            ),
    decreases pairs.len(),
{
    if pairs.len() > 0 {
        let rest = pairs.drop_last();
        matching_plan_follows_pairs(ids, rest);
        let plan = matching_plan(ids, pairs);
        let prev = matching_plan(ids, rest);
        assert forall|k: int| 0 <= k < plan.len() implies {
            let step = #[trigger] plan[k];
            exists|i: int|
                0 <= i < pairs.len() && first_index_of(ids, (#[trigger] pairs[i]).0) == Some(
                    step.0 as int,
                ) && first_index_of(ids, pairs[i].1) == Some(step.1 as int)
        } by {
            if k < prev.len() {
                assert(plan[k] == prev[k]);
                let i = choose|i: int|
                    0 <= i < rest.len() && first_index_of(ids, (#[trigger] rest[i]).0) == Some(
                        prev[k].0 as int,
                    ) && first_index_of(ids, rest[i].1) == Some(prev[k].1 as int);
                assert(pairs[i] == rest[i]);
            } else {
                let p = pairs.last();
                lemma_first_index_bound(ids, p.0);
                lemma_first_index_bound(ids, p.1);
                assert(pairs[pairs.len() - 1] == p);
                assert(first_index_of(ids, pairs[pairs.len() - 1].0) == Some(plan[k].0 as int));
            }
        }
        assert forall|t: usize, a: usize|
            #![trigger pairs.contains((t, a))]
            pairs.contains((t, a)) && first_index_of(ids, t) is Some && first_index_of(ids, a) is Some
                implies plan.contains(
            (first_index_of(ids, t)->0 as usize, first_index_of(ids, a)->0 as usize),
        ) by {
            let i = choose|i: int| 0 <= i < pairs.len() && pairs[i] == (t, a);
            if i < rest.len() {
                assert(rest[i] == (t, a));
                assert(rest.contains((t, a)));
                let w = choose|w: int|
                    0 <= w < prev.len() && prev[w] == (
                        first_index_of(ids, t)->0 as usize,
                        first_index_of(ids, a)->0 as usize,
                    );
                assert(plan[w] == prev[w]);
            } else {
                lemma_first_index_bound(ids, t);
                lemma_first_index_bound(ids, a);
                assert(pairs.last() == (t, a));
                assert(plan.last() == (
                    first_index_of(ids, t)->0 as usize,
                    first_index_of(ids, a)->0 as usize,
                ));
            }
        }
    }
}

/// Tiles `t` and `a` are side by side in a grid (`a` right of `t`, sharing the
/// `RightLeft` border) or one above the other (`a` below `t`, sharing the
/// `BottomTop` border), where `id` numbers the cells of a `cols` x `rows` grid.
pub open spec fn grid_neighbours(
    t: usize,
    a: usize,
    border: Option<BorderPair>,
    id: spec_fn(int, int) -> int,
    cols: int,
    rows: int,
) -> bool {
    exists|x: int, y: int|
        0 <= x < cols && 0 <= y < rows && t == #[trigger] id(x, y) && ((x + 1 < cols && a == id(
            x + 1,
            y,
        ) && border == Some(BorderPair::RightLeft)) || (y + 1 < rows && a == id(x, y + 1) && border
            == Some(BorderPair::BottomTop)))
}

/// Every pair of the scale factor 1 matching order is a pair of neighbouring
/// cells of the 4x4 tile grid, and the borders compared are the ones they share.
pub proof fn scale_factor_1_pairs_are_neighbours()
    ensures
        forall|i: int|
            0 <= i < match_pairs_scale_factor_1().len() ==> grid_neighbours(
                (#[trigger] match_pairs_scale_factor_1()[i]).0,
                match_pairs_scale_factor_1()[i].1,
                borders_scale_factor_1(
                    match_pairs_scale_factor_1()[i].0,
                    match_pairs_scale_factor_1()[i].1,
                ),
                |x: int, y: int| tile_id_scale_factor_1(x, y),
                4,
                4,
            ),
{
    let p = match_pairs_scale_factor_1();
    let id = |x: int, y: int| tile_id_scale_factor_1(x, y);
    assert forall|i: int| 0 <= i < p.len() implies grid_neighbours(
        (#[trigger] p[i]).0,
        p[i].1,
        borders_scale_factor_1(p[i].0, p[i].1),
        id,
        4,
        4,
    ) by {
        assert(i == 0 || i == 1 || i == 2 || i == 3 || i == 4 || i == 5 || i == 6 || i == 7 || i
            == 8 || i == 9 || i == 10 || i == 11 || i == 12 || i == 13 || i == 14);
        let x: int = (p[i].0 - 1) / 4;
        let y: int = (p[i].0 - 1) % 4;
        assert(p[i].0 == id(x, y));
    }
}

/// Every pair of the scale factor 2 matching order is a pair of neighbouring
/// cells of the 2x2 tile grid, and the borders compared are the ones they share.
pub proof fn scale_factor_2_pairs_are_neighbours()
    ensures
        forall|i: int|
            0 <= i < match_pairs_scale_factor_2().len() ==> grid_neighbours(
                (#[trigger] match_pairs_scale_factor_2()[i]).0,
                match_pairs_scale_factor_2()[i].1,
                borders_scale_factor_2(
                    match_pairs_scale_factor_2()[i].0,
                    match_pairs_scale_factor_2()[i].1,
                ),
                |x: int, y: int| tile_id_scale_factor_2(x, y),
                2,
                2,
            ),
{
    let p = match_pairs_scale_factor_2();
    let id = |x: int, y: int| tile_id_scale_factor_2(x, y);
    assert forall|i: int| 0 <= i < p.len() implies grid_neighbours(
        (#[trigger] p[i]).0,
        p[i].1,
        borders_scale_factor_2(p[i].0, p[i].1),
        id,
        2,
        2,
    ) by {
        if i == 0 || i == 1 {
            assert(p[i].0 == id(0, 0));
        } else {
            assert(p[i].0 == id(1, 0));
        }
    }
}

} // verus!
