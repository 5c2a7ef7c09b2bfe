//! Bookkeeping for reassembling Mars 2020 NavCam tiles into a full frame.

use vstd::prelude::*;

verus! {

/// Where a tile lies on the full-frame canvas, and its scale factor.
pub struct TileCoordinates {
    pub top_left_x: usize,
    pub top_left_y: usize,
    pub bottom_right_x: usize,
    pub bottom_right_y: usize,
    pub scale: u32,
}

/// The standard tile id at column `x` and row `y` of a scale factor 1 frame
/// (a 4x4 grid numbered down the columns).
pub open spec fn tile_id_scale_factor_1(x: int, y: int) -> int {
    1 + 4 * x + y
}

/// The standard tile id at column `x` and row `y` of a scale factor 2 frame
/// (a 2x2 grid: 1, 4 on top, 7, 10 below).
pub open spec fn tile_id_scale_factor_2(x: int, y: int) -> int {
    1 + 3 * x + 6 * y
}

/// The standard tile id of the grid cell `(x, y)` in a scale factor 1 frame.
pub fn subframe_id_scale_factor_1(x: usize, y: usize) -> (r: usize)
    requires
        x < 4,
        y < 4,
    ensures
        r == tile_id_scale_factor_1(x as int, y as int),
{
    1 + 4 * x + y
}

/// The standard tile id of the grid cell `(x, y)` in a scale factor 2 frame.
pub fn subframe_id_scale_factor_2(x: usize, y: usize) -> (r: usize)
    requires
        x < 2,
        y < 2,
    ensures
        r == tile_id_scale_factor_2(x as int, y as int),
{
    1 + 3 * x + 6 * y
}

/// The standard tile id of a tile from its grid cell, by scale factor; `None`
/// for scale factors other than 1 and 2.
pub fn tile_id(scale_factor: u32, x: usize, y: usize) -> (r: Option<usize>)
    requires
        scale_factor == 1 ==> x < 4 && y < 4,
        scale_factor == 2 ==> x < 2 && y < 2,
    ensures
        r == (if scale_factor == 1 {
            Some(tile_id_scale_factor_1(x as int, y as int) as usize)
        } else if scale_factor == 2 {
            Some(tile_id_scale_factor_2(x as int, y as int) as usize)
        } else {
            None
        }),
{
    if scale_factor == 1 {
        Some(subframe_id_scale_factor_1(x, y))
    } else if scale_factor == 2 {
        Some(subframe_id_scale_factor_2(x, y))
    } else {
        None
    }
}

/// Only scale factors up to 2 can be assembled.
pub fn is_supported_scale_factor(scale_factor: u32) -> (r: bool)
    ensures
        r == (scale_factor <= 2),
{
    scale_factor <= 2
}

/// Canvas size of a full frame at a scale factor; `None` when unsupported.
pub open spec fn composite_size(scale_factor: u32) -> Option<(usize, usize)> {
    if scale_factor == 1 {
        Some((5120usize, 3840usize))
    } else if scale_factor == 2 {
        Some((2560usize, 1920usize))
    } else if scale_factor == 4 {
        Some((1280usize, 960usize))
    } else {
        None
    }
}

/// The canvas size of `composite_size`.
pub fn determine_composite_size(scale_factor: u32) -> (r: Option<(usize, usize)>)
    ensures
        r == composite_size(scale_factor),
{
    if scale_factor == 1 {
        Some((5120, 3840))
    } else if scale_factor == 2 {
        Some((2560, 1920))
    } else if scale_factor == 4 {
        Some((1280, 960))
    } else {
        None
    }
}

impl TileCoordinates {
    /// Coordinates of a `width` by `height` tile whose top left corner is at
    /// `(top_left_x, top_left_y)`.
    pub fn new(top_left_x: usize, top_left_y: usize, width: usize, height: usize, scale: u32) -> (r:
        TileCoordinates)
        requires
            top_left_x + width <= usize::MAX,
            top_left_y + height <= usize::MAX,
        ensures
            r.top_left_x == top_left_x,
            r.top_left_y == top_left_y,
            r.bottom_right_x == top_left_x + width,
            r.bottom_right_y == top_left_y + height,
            r.scale == scale,
    {
        TileCoordinates {
            top_left_x,
            top_left_y,
            bottom_right_x: top_left_x + width,
            bottom_right_y: top_left_y + height,
            scale,
        }
    }

    /// Where a tile is pasted: its edge pixels are cropped away (two on each
    /// side) and the rest lands one pixel up and left of the tile's corner.
    pub fn paste_position(&self) -> (r: (usize, usize))
        requires
            self.top_left_x >= 1,
            self.top_left_y >= 1,
        ensures
            r == ((self.top_left_x - 1) as usize, (self.top_left_y - 1) as usize),
    {
        (self.top_left_x - 1, self.top_left_y - 1)
    }
}

/// The canvas position of a tile from its subframe corner (whole pixels of
/// the full-resolution frame, as `floor` of the metadata's values) and its
/// scale factor: the corner scaled down, moved two pixels in, spanning the
/// tile's size.
pub fn tile_coordinates(
    subframe_x: usize,
    subframe_y: usize,
    scale: u32,
    width: usize,
    height: usize,
) -> (r: TileCoordinates)
    requires
        scale >= 1,
        (subframe_x as int) / (scale as int) + 2 + width <= usize::MAX,
        (subframe_y as int) / (scale as int) + 2 + height <= usize::MAX,
    ensures
        r.top_left_x == (subframe_x as int) / (scale as int) + 2,
        r.top_left_y == (subframe_y as int) / (scale as int) + 2,
        r.bottom_right_x == r.top_left_x + width,
        r.bottom_right_y == r.top_left_y + height,
        r.scale == scale,
{
    let s = scale as usize;
    let tl_x = subframe_x / s + 2;
    let tl_y = subframe_y / s + 2;
    TileCoordinates::new(tl_x, tl_y, width, height, scale)
}

/// The standard tile ids number the cells of each grid one to one: a scale
/// factor 1 frame's 4x4 cells get 1..=16, a scale factor 2 frame's 2x2 cells
/// get 1, 4, 7 and 10, and no two cells share an id.
pub proof fn tile_ids_number_the_grid()
    ensures
        forall|x: int, y: int|
            0 <= x < 4 && 0 <= y < 4 ==> 1 <= #[trigger] tile_id_scale_factor_1(x, y) <= 16,
        forall|x1: int, y1: int, x2: int, y2: int|
            0 <= x1 < 4 && 0 <= y1 < 4 && 0 <= x2 < 4 && 0 <= y2 < 4 && #[trigger]
            tile_id_scale_factor_1(x1, y1) == #[trigger] tile_id_scale_factor_1(x2, y2) ==> x1 == x2
                && y1 == y2,
        forall|id: int|
            1 <= id <= 16 ==> {
                let c = #[trigger] cell_of_tile_id_scale_factor_1(id);
                0 <= c.0 < 4 && 0 <= c.1 < 4 && tile_id_scale_factor_1(c.0, c.1) == id
            },
        forall|x: int, y: int|
            0 <= x < 2 && 0 <= y < 2 ==> {
                let id = #[trigger] tile_id_scale_factor_2(x, y);
                id == 1 || id == 4 || id == 7 || id == 10
            },
        forall|x1: int, y1: int, x2: int, y2: int|
            0 <= x1 < 2 && 0 <= y1 < 2 && 0 <= x2 < 2 && 0 <= y2 < 2 && #[trigger]
            tile_id_scale_factor_2(x1, y1) == #[trigger] tile_id_scale_factor_2(x2, y2) ==> x1 == x2
                && y1 == y2,
{
}

/// The grid cell `(x, y)` that a scale factor 1 tile id numbers.
pub open spec fn cell_of_tile_id_scale_factor_1(id: int) -> (int, int) {
    ((id - 1) / 4, (id - 1) % 4)
}

} // verus!
