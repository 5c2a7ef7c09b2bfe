//! Brightness matching of NavCam tiles, with the pair order chosen by scale
//! factor.

use vstd::prelude::*;
use crate::m20::ncamtile::{match_levels_with_pairs, matching_plan, BorderPair};

verus! {

/// The matching order of the tiles of a frame with the given scale factor:
/// scale factor 2 matches 1-4, 1-7 and 7-10; scale factor 1 follows the
/// scale factor 1 order; other scale factors match nothing.
pub open spec fn level_pairs_for(scale_factor: u32) -> Seq<(usize, usize)> {
    if scale_factor == 2 {
        seq![(1usize, 4usize), (1usize, 7usize), (7usize, 10usize)]
    } else if scale_factor == 1 {
        crate::m20::ncamtile::match_pairs_scale_factor_1()
    } else {
        seq![]
    }
}

/// The brightness matching plan of a set of tiles; the scale factor of the
/// first tile chooses the pair order; no tiles, no plan.
pub fn match_levels(tile_ids: &Vec<usize>, scale_factors: &Vec<u32>) -> (r: Vec<(usize, usize)>)
    requires
        scale_factors@.len() == tile_ids@.len(),
    ensures
        r@ == (if tile_ids@.len() == 0 {
            Seq::<(usize, usize)>::empty()
        } else {
            matching_plan(tile_ids@, level_pairs_for(scale_factors@[0]))
        }),
{
    if tile_ids.len() == 0 {
        return Vec::new();
    }
    let pairs: Vec<(usize, usize)> = if scale_factors[0] == 2 {
        vec![(1, 4), (1, 7), (7, 10)]
    } else if scale_factors[0] == 1 {
        crate::m20::ncamtile::frame_match_pairs_scale_factor_1()
    } else {
        Vec::new()
    };
    proof {
        assert(pairs@ =~= level_pairs_for(scale_factors@[0]));
    }
    match_levels_with_pairs(tile_ids, &pairs)
}

/// The windows `(x, y, width, height)` that are compared when the levels of
/// an adjusted tile are matched to a target tile, each tile given as
/// `(width, height)`. Each window keeps two pixels clear of the tile's edges
/// and is twelve pixels deep: the target's right strip against the adjusted
/// tile's left strip, or the target's bottom strip against the adjusted
/// tile's top strip.
pub open spec fn inset_windows(
    pair: BorderPair,
    target: (usize, usize),
    adjust: (usize, usize),
) -> ((usize, usize, usize, usize), (usize, usize, usize, usize)) {
    match pair {
        BorderPair::RightLeft => (
            ((target.0 - 14) as usize, 2usize, 12usize, (target.1 - 4) as usize),
            (2usize, 2usize, 12usize, (adjust.1 - 4) as usize),
        ),
        BorderPair::BottomTop => (
            (2usize, (target.1 - 14) as usize, (target.0 - 4) as usize, 12usize),
            (2usize, 2usize, (adjust.0 - 4) as usize, 12usize),
        ),
    }
}

/// Whether both tiles are large enough for the windows of `inset_windows`.
pub open spec fn fits_inset_windows(pair: BorderPair, target: (usize, usize), adjust: (usize, usize)) -> bool {
    match pair {
        BorderPair::RightLeft => target.0 >= 14 && target.1 >= 4 && adjust.0 >= 14 && adjust.1 >= 4,
        BorderPair::BottomTop => target.0 >= 4 && target.1 >= 14 && adjust.0 >= 4 && adjust.1 >= 14,
    }
}

/// The compared windows of `inset_windows`.
pub fn border_inset_windows(
    pair: BorderPair,
    target: (usize, usize),
    adjust: (usize, usize),
) -> (r: ((usize, usize, usize, usize), (usize, usize, usize, usize)))
    requires
        fits_inset_windows(pair, target, adjust),
    ensures
        r == inset_windows(pair, target, adjust),
{
    match pair {
        BorderPair::RightLeft => ((target.0 - 14, 2, 12, target.1 - 4), (2, 2, 12, adjust.1 - 4)),
        BorderPair::BottomTop => ((2, target.1 - 14, target.0 - 4, 12), (2, 2, adjust.0 - 4, 12)),
    }
}

} // verus!
