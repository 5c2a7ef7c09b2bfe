//! Traversal order of the mask-guided inpainting fill.
//!
//! Inpainting replaces every masked pixel of an image by the mean of the
//! unmasked pixels in its 3x3 window. The order in which pixels are filled,
//! and which window pixels are unmasked at the moment each one is filled,
//! depend on the mask alone: the fill starts at the first masked pixel in
//! row-major order with a positive mask value, clears it, then walks to the
//! masked neighbour with the most unmasked neighbours, and so on until the
//! walk is stuck, when a new start is searched. This module computes that
//! plan; applying the means to pixel values is left to the caller.

use vstd::prelude::*;
use crate::calibfile::{Config, SearchContext};
use crate::enums::Instrument;
use crate::inpaintmask::mask_resolves;

verus! {

/// Classification of a mask value: zero (not masked), positive, or any other
/// non-zero value.
#[derive(Debug, Copy, Clone, PartialEq, Eq, Structural)]
pub enum MaskCell {
    Zero,
    Positive,
    Other,
}

/// A mask raster, stored row by row.
pub struct InpaintMask {
    pub width: usize,
    pub height: usize,
    pub cells: Vec<MaskCell>,
}

/// One fill step: the pixel to fill, and the unmasked pixels of its 3x3 window
/// (row by row) whose mean gives the new value.
pub struct InfillStep {
    pub x: usize,
    pub y: usize,
    pub window: Vec<(usize, usize)>,
}

impl View for InfillStep {
    type V = (usize, usize, Seq<(usize, usize)>);

    open spec fn view(&self) -> (usize, usize, Seq<(usize, usize)>) {
        (self.x, self.y, self.window@)
    }
}

impl InpaintMask {
    /// The raster holds exactly `width * height` cells.
    pub open spec fn wf(&self) -> bool {
        self.cells@.len() == self.width * self.height
    }
}

pub open spec fn in_bounds(w: int, h: int, x: int, y: int) -> bool {
    0 <= x < w && 0 <= y < h
}

/// The pixel exists and is not masked.
pub open spec fn is_good(m: Seq<MaskCell>, w: int, h: int, x: int, y: int) -> bool {
    in_bounds(w, h, x, y) && m[y * w + x] == MaskCell::Zero
}

/// The pixel exists and is masked.
pub open spec fn is_marked(m: Seq<MaskCell>, w: int, h: int, x: int, y: int) -> bool {
    in_bounds(w, h, x, y) && m[y * w + x] != MaskCell::Zero
}

pub open spec fn b2n(b: bool) -> nat {
    if b {
        1
    } else {
        0
    }
}

/// Number of unmasked pixels among the eight neighbours of `(x, y)`.
pub open spec fn good_neighbors(m: Seq<MaskCell>, w: int, h: int, x: int, y: int) -> nat {
    b2n(is_good(m, w, h, x, y - 1)) + b2n(is_good(m, w, h, x - 1, y - 1)) + b2n(
        is_good(m, w, h, x - 1, y),
    ) + b2n(is_good(m, w, h, x - 1, y + 1)) + b2n(is_good(m, w, h, x, y + 1)) + b2n(
        is_good(m, w, h, x + 1, y + 1),
    ) + b2n(is_good(m, w, h, x + 1, y)) + b2n(is_good(m, w, h, x + 1, y - 1))
}

/// A masked pixel as a candidate for the next fill, with its score.
pub open spec fn candidate(m: Seq<MaskCell>, w: int, h: int, x: int, y: int) -> Option<
    (int, int, nat),
> {
    if is_marked(m, w, h, x, y) {
        Some((x, y, good_neighbors(m, w, h, x, y)))
    } else {
        None
    }
}

/// Keeps the best candidate so far unless the new one scores at least as well.
pub open spec fn prefer(best: Option<(int, int, nat)>, c: Option<(int, int, nat)>) -> Option<
    (int, int, nat),
> {
    match c {
        None => best,
        Some(cv) => match best {
            None => Some(cv),
            Some(bv) => if bv.2 > cv.2 {
                Some(bv)
            } else {
                Some(cv)
            },
        },
    }
}

/// The next pixel to fill after `(x, y)`: the best masked neighbour, visiting
/// the neighbours as up, up-left, left, down-left, down, down-right, right,
/// up-right; a later neighbour wins a tie.
pub open spec fn next_point(m: Seq<MaskCell>, w: int, h: int, x: int, y: int) -> Option<
    (int, int, nat),
> {
    let p0 = prefer(None, candidate(m, w, h, x, y - 1));
    let p1 = prefer(p0, candidate(m, w, h, x - 1, y - 1));
    let p2 = prefer(p1, candidate(m, w, h, x - 1, y));
    let p3 = prefer(p2, candidate(m, w, h, x - 1, y + 1));
    let p4 = prefer(p3, candidate(m, w, h, x, y + 1));
    let p5 = prefer(p4, candidate(m, w, h, x + 1, y + 1));
    let p6 = prefer(p5, candidate(m, w, h, x + 1, y));
    prefer(p6, candidate(m, w, h, x + 1, y - 1))
}

pub open spec fn keep(m: Seq<MaskCell>, w: int, h: int, x: int, y: int) -> Seq<(usize, usize)> {
    if is_good(m, w, h, x, y) {
        seq![(x as usize, y as usize)]
    } else {
        seq![]
    }
}

/// The unmasked pixels of the 3x3 window centred on `(x, y)`, row by row.
pub open spec fn window(m: Seq<MaskCell>, w: int, h: int, x: int, y: int) -> Seq<(usize, usize)> {
    keep(m, w, h, x - 1, y - 1) + keep(m, w, h, x, y - 1) + keep(m, w, h, x + 1, y - 1) + keep(
        m,
        w,
        h,
        x - 1,
        y,
    ) + keep(m, w, h, x, y) + keep(m, w, h, x + 1, y) + keep(m, w, h, x - 1, y + 1) + keep(
        m,
        w,
        h,
        x,
        y + 1,
    ) + keep(m, w, h, x + 1, y + 1)
}

/// Number of masked cells.
pub open spec fn nonzero_count(m: Seq<MaskCell>) -> nat
    decreases m.len(),
{
    if m.len() == 0 {
        0
    } else {
        nonzero_count(m.drop_last()) + b2n(m.last() != MaskCell::Zero)
    }
}

/// First index at or after `i` whose cell is positive.
pub open spec fn first_positive_from(m: Seq<MaskCell>, i: int) -> Option<int>
    decreases m.len() - i,
{
    if i < 0 || i >= m.len() {
        None
    } else if m[i] == MaskCell::Positive {
        Some(i)
    } else {
        first_positive_from(m, i + 1)
    }
}

pub proof fn lemma_index_in_range(x: int, y: int, w: int, h: int)
    requires
        0 <= x < w,
        0 <= y < h,
    ensures
        0 <= y * w + x < w * h,
{
    assert(0 <= y * w) by (nonlinear_arith)
        requires
            0 <= y,
            0 <= w,
    ;
    assert(y * w + w <= w * h) by (nonlinear_arith)
        requires
            0 <= y < h,
            0 <= w,
    ;
}

pub proof fn lemma_count_clear(m: Seq<MaskCell>, i: int)
    requires
        0 <= i < m.len(),
        m[i] != MaskCell::Zero,
    ensures
        nonzero_count(m.update(i, MaskCell::Zero)) + 1 == nonzero_count(m),
    decreases m.len(),
{
    let m2 = m.update(i, MaskCell::Zero);
    if i == m.len() - 1 {
        assert(m2.drop_last() =~= m.drop_last());
    } else {
        lemma_count_clear(m.drop_last(), i);
        assert(m2.drop_last() =~= m.drop_last().update(i, MaskCell::Zero));
    }
}

/// The fill plan that starts at the masked pixel `(cx, cy)`.
pub open spec fn traverse_from(m: Seq<MaskCell>, w: int, h: int, cx: int, cy: int) -> Seq<
    (usize, usize, Seq<(usize, usize)>),
>
    decreases nonzero_count(m), 0nat,
{
    if m.len() != w * h || !is_marked(m, w, h, cx, cy) {
        seq![]
    } else {
        proof {
            lemma_index_in_range(cx, cy, w, h);
            lemma_count_clear(m, cy * w + cx);
        }
        let step = (cx as usize, cy as usize, window(m, w, h, cx, cy));
        let m2 = m.update(cy * w + cx, MaskCell::Zero);
        match next_point(m2, w, h, cx, cy) {
            Some(p) => seq![step] + traverse_from(m2, w, h, p.0, p.1),
            None => seq![step] + traverse(m2, w, h),
        }
    }
}

/// The whole fill plan for a mask: repeatedly start at the first positive
/// cell in row-major order and walk from there.
pub open spec fn traverse(m: Seq<MaskCell>, w: int, h: int) -> Seq<
    (usize, usize, Seq<(usize, usize)>),
>
    decreases nonzero_count(m), 1nat,
{
    if w <= 0 {
        seq![]
    } else {
        match first_positive_from(m, 0) {
            Some(i) => traverse_from(m, w, h, i % w, i / w),
            None => seq![],
        }
    }
}

pub open spec fn steps_view(s: Seq<InfillStep>) -> Seq<(usize, usize, Seq<(usize, usize)>)> {
    s.map_values(|st: InfillStep| st@)
}


pub open spec fn opt_view(o: Option<(usize, usize, u8)>) -> Option<(int, int, nat)> {
    match o {
        Some(v) => Some((v.0 as int, v.1 as int, v.2 as nat)),
        None => None,
    }
}

/// Whether the neighbour `(x + dx, y + dy)` exists and is unmasked.
fn good_at(cells: &Vec<MaskCell>, w: usize, h: usize, x: usize, y: usize, dx: i8, dy: i8) -> (r:
    bool)
    requires
        cells@.len() == w * h,
        x < w,
        y < h,
        -1 <= dx <= 1,
        -1 <= dy <= 1,
    ensures
        r == is_good(cells@, w as int, h as int, x + dx, y + dy),
{
    if (dx == -1 && x == 0) || (dy == -1 && y == 0) {
        return false;
    }
    let nx: usize = if dx == -1 {
        x - 1
    } else if dx == 1 {
        x + 1
    } else {
        x
    };
    let ny: usize = if dy == -1 {
        y - 1
    } else if dy == 1 {
        y + 1
    } else {
        y
    };
    if nx >= w || ny >= h {
        return false;
    }
    proof {
        lemma_index_in_range(nx as int, ny as int, w as int, h as int);
        assert(cells.len() == cells@.len());
        assert(ny * w + nx < cells@.len());
    }
    cells[ny * w + nx] == MaskCell::Zero
}

fn count_if(b: bool) -> (r: u8)
    ensures
        r as nat == b2n(b),
{
    if b {
        1
    } else {
        0
    }
}

/// Number of unmasked neighbours of an existing pixel.
fn good_neighbors_at(cells: &Vec<MaskCell>, w: usize, h: usize, x: usize, y: usize) -> (r: u8)
    requires
        cells@.len() == w * h,
        x < w,
        y < h,
    ensures
        r as nat == good_neighbors(cells@, w as int, h as int, x as int, y as int),
{
    let a = count_if(good_at(cells, w, h, x, y, 0, -1));
    let b = count_if(good_at(cells, w, h, x, y, -1, -1));
    let c = count_if(good_at(cells, w, h, x, y, -1, 0));
    let d = count_if(good_at(cells, w, h, x, y, -1, 1));
    let e = count_if(good_at(cells, w, h, x, y, 0, 1));
    let f = count_if(good_at(cells, w, h, x, y, 1, 1));
    let g = count_if(good_at(cells, w, h, x, y, 1, 0));
    let k = count_if(good_at(cells, w, h, x, y, 1, -1));
    a + b + c + d + e + f + g + k
}

/// The neighbour `(x + dx, y + dy)` as a fill candidate.
fn candidate_at(cells: &Vec<MaskCell>, w: usize, h: usize, x: usize, y: usize, dx: i8, dy: i8) -> (r:
    Option<(usize, usize, u8)>)
    requires
        cells@.len() == w * h,
        x < w,
        y < h,
        -1 <= dx <= 1,
        -1 <= dy <= 1,
    ensures
        opt_view(r) == candidate(cells@, w as int, h as int, x + dx, y + dy),
{
    if (dx == -1 && x == 0) || (dy == -1 && y == 0) {
        return None;
    }
    let nx: usize = if dx == -1 {
        x - 1
    } else if dx == 1 {
        x + 1
    } else {
        x
    };
    let ny: usize = if dy == -1 {
        y - 1
    } else if dy == 1 {
        y + 1
    } else {
        y
    };
    if nx >= w || ny >= h {
        return None;
    }
    proof {
        lemma_index_in_range(nx as int, ny as int, w as int, h as int);
        assert(cells.len() == cells@.len());
        assert(ny * w + nx < cells@.len());
    }
    if cells[ny * w + nx] == MaskCell::Zero {
        None
    } else {
        let score = good_neighbors_at(cells, w, h, nx, ny);
        Some((nx, ny, score))
    }
}

fn prefer_exec(best: Option<(usize, usize, u8)>, c: Option<(usize, usize, u8)>) -> (r: Option<
    (usize, usize, u8),
>)
    ensures
        opt_view(r) == prefer(opt_view(best), opt_view(c)),
{
    match c {
        None => best,
        Some(cv) => match best {
            None => Some(cv),
            Some(bv) => if bv.2 > cv.2 {
                Some(bv)
            } else {
                Some(cv)
            },
        },
    }
}

/// The next pixel to fill after `(x, y)`, as `next_point` describes.
fn next_point_at(cells: &Vec<MaskCell>, w: usize, h: usize, x: usize, y: usize) -> (r: Option<
    (usize, usize, u8),
>)
    requires
        cells@.len() == w * h,
        x < w,
        y < h,
    ensures
        opt_view(r) == next_point(cells@, w as int, h as int, x as int, y as int),
{
    let p0 = prefer_exec(None, candidate_at(cells, w, h, x, y, 0, -1));
    let p1 = prefer_exec(p0, candidate_at(cells, w, h, x, y, -1, -1));
    let p2 = prefer_exec(p1, candidate_at(cells, w, h, x, y, -1, 0));
    let p3 = prefer_exec(p2, candidate_at(cells, w, h, x, y, -1, 1));
    let p4 = prefer_exec(p3, candidate_at(cells, w, h, x, y, 0, 1));
    let p5 = prefer_exec(p4, candidate_at(cells, w, h, x, y, 1, 1));
    let p6 = prefer_exec(p5, candidate_at(cells, w, h, x, y, 1, 0));
    prefer_exec(p6, candidate_at(cells, w, h, x, y, 1, -1))
}

fn push_if_good(
    cells: &Vec<MaskCell>,
    w: usize,
    h: usize,
    x: usize,
    y: usize,
    dx: i8,
    dy: i8,
    out: &mut Vec<(usize, usize)>,
)
    requires
        cells@.len() == w * h,
        x < w,
        y < h,
        -1 <= dx <= 1,
        -1 <= dy <= 1,
    ensures
        final(out)@ == old(out)@ + keep(cells@, w as int, h as int, x + dx, y + dy),
{
    if good_at(cells, w, h, x, y, dx, dy) {
        let nx: usize = if dx == -1 {
            x - 1
        } else if dx == 1 {
            x + 1
        } else {
            x
        };
        let ny: usize = if dy == -1 {
            y - 1
        } else if dy == 1 {
            y + 1
        } else {
            y
        };
        out.push((nx, ny));
    }
    proof {
        assert(final(out)@ =~= old(out)@ + keep(cells@, w as int, h as int, x + dx, y + dy));
    }
}

/// The unmasked pixels of the 3x3 window centred on an existing pixel.
fn window_at(cells: &Vec<MaskCell>, w: usize, h: usize, x: usize, y: usize) -> (r: Vec<
    (usize, usize),
>)
    requires
        cells@.len() == w * h,
        x < w,
        y < h,
    ensures
        r@ == window(cells@, w as int, h as int, x as int, y as int),
{
    let mut out: Vec<(usize, usize)> = Vec::new();
    push_if_good(cells, w, h, x, y, -1, -1, &mut out);
    push_if_good(cells, w, h, x, y, 0, -1, &mut out);
    push_if_good(cells, w, h, x, y, 1, -1, &mut out);
    push_if_good(cells, w, h, x, y, -1, 0, &mut out);
    push_if_good(cells, w, h, x, y, 0, 0, &mut out);
    push_if_good(cells, w, h, x, y, 1, 0, &mut out);
    push_if_good(cells, w, h, x, y, -1, 1, &mut out);
    push_if_good(cells, w, h, x, y, 0, 1, &mut out);
    push_if_good(cells, w, h, x, y, 1, 1, &mut out);
    proof {
        assert(out@ =~= window(cells@, w as int, h as int, x as int, y as int));
    }
    out
}


pub proof fn lemma_prefer_source(b: Option<(int, int, nat)>, c: Option<(int, int, nat)>)
    ensures
        prefer(b, c) is Some ==> (prefer(b, c) == b || prefer(b, c) == c),
{
}

/// The next pixel of a walk is always a masked pixel.
pub proof fn lemma_next_point_marked(m: Seq<MaskCell>, w: int, h: int, x: int, y: int)
    ensures
        next_point(m, w, h, x, y) matches Some(p) ==> is_marked(m, w, h, p.0, p.1),
{
    let c0 = candidate(m, w, h, x, y - 1);
    let c1 = candidate(m, w, h, x - 1, y - 1);
    let c2 = candidate(m, w, h, x - 1, y);
    let c3 = candidate(m, w, h, x - 1, y + 1);
    let c4 = candidate(m, w, h, x, y + 1);
    let c5 = candidate(m, w, h, x + 1, y + 1);
    let c6 = candidate(m, w, h, x + 1, y);
    let c7 = candidate(m, w, h, x + 1, y - 1);
    let p0 = prefer(None, c0);
    let p1 = prefer(p0, c1);
    let p2 = prefer(p1, c2);
    let p3 = prefer(p2, c3);
    let p4 = prefer(p3, c4);
    let p5 = prefer(p4, c5);
    let p6 = prefer(p5, c6);
    lemma_prefer_source(None, c0);
    lemma_prefer_source(p0, c1);
    lemma_prefer_source(p1, c2);
    lemma_prefer_source(p2, c3);
    lemma_prefer_source(p3, c4);
    lemma_prefer_source(p4, c5);
    lemma_prefer_source(p5, c6);
    lemma_prefer_source(p6, c7);
}

/// Row-major search for the first positive mask cell.
fn find_start(cells: &Vec<MaskCell>, w: usize, h: usize) -> (r: Option<(usize, usize)>)
    requires
        cells@.len() == w * h,
    ensures
        match first_positive_from(cells@, 0) {
            Some(i) => w > 0 && (r matches Some(p) && p.0 as int == i % (w as int) && p.1 as int
                == i / (w as int)),
            None => r is None,
        },
        r matches Some(p) ==> p.0 < w && p.1 < h && cells@[p.1 * w + p.0] == MaskCell::Positive,
{
    let n = cells.len();
    let mut i: usize = 0;
    let mut x: usize = 0;
    let mut y: usize = 0;
    while i < n
        invariant
            n == cells@.len(),
            n == w * h,
            i <= n,
            i == y * w + x,
            n > 0 ==> w > 0 && x < w,
            first_positive_from(cells@, 0) == first_positive_from(cells@, i as int),
        decreases n - i,
    {
        if cells[i] == MaskCell::Positive {
            proof {
                vstd::arithmetic::div_mod::lemma_fundamental_div_mod_converse(
                    i as int,
                    w as int,
                    y as int,
                    x as int,
                );
                if y >= h {
                    assert(y * w >= w * h) by (nonlinear_arith)
                        requires
                            y >= h,
                            w > 0,
                    ;
                }
                assert(cells@[y * w + x] == MaskCell::Positive);
            }
            return Some((x, y));
        }
        proof {
            assert(y * w + w == (y + 1) * w) by (nonlinear_arith);
            assert(y + 1 <= (y + 1) * w) by (nonlinear_arith)
                requires
                    w > 0,
                    y >= 0,
            ;
        }
        i = i + 1;
        x = x + 1;
        if x == w {
            x = 0;
            y = y + 1;
        }
    }
    None
}

/// Copies the mask raster.
fn copy_cells(cells: &Vec<MaskCell>) -> (r: Vec<MaskCell>)
    ensures
        r@ == cells@,
{
    let mut out: Vec<MaskCell> = Vec::new();
    let n = cells.len();
    for i in 0..n
        invariant
            n == cells@.len(),
            out@ =~= cells@.subrange(0, i as int),
    {
        out.push(cells[i]);
    }
    out
}

/// Walks from the masked pixel `(x, y)` until stuck, clearing and recording
/// each pixel.
#[verifier::rlimit(40)]
fn infill(
    cells: &mut Vec<MaskCell>,
    w: usize,
    h: usize,
    x: usize,
    y: usize,
    plan: &mut Vec<InfillStep>,
)
    requires
        old(cells)@.len() == w * h,
        x < w,
        y < h,
        old(cells)@[y * w + x] != MaskCell::Zero,
    ensures
        final(cells)@.len() == w * h,
        steps_view(final(plan)@) + traverse(final(cells)@, w as int, h as int) == steps_view(
            old(plan)@,
        ) + traverse_from(old(cells)@, w as int, h as int, x as int, y as int),
        nonzero_count(final(cells)@) < nonzero_count(old(cells)@),
{
    let ghost target = steps_view(old(plan)@) + traverse_from(
        old(cells)@,
        w as int,
        h as int,
        x as int,
        y as int,
    );
    let ghost start_count = nonzero_count(old(cells)@);
    let mut cx = x;
    let mut cy = y;
    loop
        invariant_except_break
            cx < w,
            cy < h,
            cells@[cy * w + cx] != MaskCell::Zero,
            steps_view(plan@) + traverse_from(cells@, w as int, h as int, cx as int, cy as int)
                == target,
            nonzero_count(cells@) <= start_count,
        invariant
            cells@.len() == w * h,
        ensures
            steps_view(plan@) + traverse(cells@, w as int, h as int) == target,
            nonzero_count(cells@) < start_count,
        decreases nonzero_count(cells@),
    {
        let ghost m = cells@;
        let ghost p = plan@;
        proof {
            lemma_index_in_range(cx as int, cy as int, w as int, h as int);
            lemma_count_clear(m, cy * w + cx);
            assert(cells.len() == cells@.len());
        }
        let win = window_at(cells, w, h, cx, cy);
        plan.push(InfillStep { x: cx, y: cy, window: win });
        let idx = cy * w + cx;
        cells.set(idx, MaskCell::Zero);
        let ghost step = (cx, cy, window(m, w as int, h as int, cx as int, cy as int));
        proof {
            assert(steps_view(plan@) =~= steps_view(p).push(step));
        }
        let nxt = next_point_at(cells, w, h, cx, cy);
        proof {
            lemma_next_point_marked(cells@, w as int, h as int, cx as int, cy as int);
        }
        match nxt {
            Some(np) => {
                proof {
                    assert(traverse_from(m, w as int, h as int, cx as int, cy as int) == seq![step]
                        + traverse_from(cells@, w as int, h as int, np.0 as int, np.1 as int));
                    assert(steps_view(p) + (seq![step] + traverse_from(
                        cells@,
                        w as int,
                        h as int,
                        np.0 as int,
                        np.1 as int,
                    )) =~= steps_view(plan@) + traverse_from(
                        cells@,
                        w as int,
                        h as int,
                        np.0 as int,
                        np.1 as int,
                    ));
                }
                cx = np.0;
                cy = np.1;
            },
            None => {
                proof {
                    assert(traverse_from(m, w as int, h as int, cx as int, cy as int) == seq![step]
                        + traverse(cells@, w as int, h as int));
                    assert(steps_view(p) + (seq![step] + traverse(cells@, w as int, h as int))
                        =~= steps_view(plan@) + traverse(cells@, w as int, h as int));
                }
                break ;
            },
        }
    }
}

/// The complete fill plan of a mask, in the order the fill visits pixels.
pub fn infill_plan(mask: &InpaintMask) -> (plan: Vec<InfillStep>)
    requires
        mask.wf(),
    ensures
        steps_view(plan@) == traverse(mask.cells@, mask.width as int, mask.height as int),
{
    let w = mask.width;
    let h = mask.height;
    let mut cells = copy_cells(&mask.cells);
    let mut plan: Vec<InfillStep> = Vec::new();
    let ghost target = traverse(mask.cells@, w as int, h as int);
    proof {
        assert(steps_view(plan@) =~= Seq::<(usize, usize, Seq<(usize, usize)>)>::empty());
        assert(steps_view(plan@) + target =~= target);
    }
    loop
        invariant
            cells@.len() == w * h,
            steps_view(plan@) + traverse(cells@, w as int, h as int) == target,
        ensures
            steps_view(plan@) == target,
        decreases nonzero_count(cells@),
    {
        match find_start(&cells, w, h) {
            None => {
                proof {
                    assert(traverse(cells@, w as int, h as int) =~= Seq::<
                        (usize, usize, Seq<(usize, usize)>),
                    >::empty());
                    assert(steps_view(plan@) + traverse(cells@, w as int, h as int) =~= steps_view(
                        plan@,
                    ));
                }
                break ;
            },
            Some(start) => {
                let ghost before = cells@;
                let ghost p = plan@;
                proof {
                    assert(traverse(before, w as int, h as int) == traverse_from(
                        before,
                        w as int,
                        h as int,
                        start.0 as int,
                        start.1 as int,
                    ));
                }
                infill(&mut cells, w, h, start.0, start.1, &mut plan);
                proof {
                    assert(steps_view(p) + traverse_from(
                        before,
                        w as int,
                        h as int,
                        start.0 as int,
                        start.1 as int,
                    ) == target);
                }
            },
        }
    }
    plan
}


/// The fill step `s` is at the cell of index `i`.
pub open spec fn step_at_index(s: (usize, usize, Seq<(usize, usize)>), w: int, i: int) -> bool {
    s.1 * w + s.0 == i
}

/// Properties of a fill plan `s` for the mask `m`: every step fills a pixel
/// that `m` masks, no pixel is filled twice, every positive cell of `m` is
/// filled, and no step's window holds the pixel being filled.
pub open spec fn plan_fills_mask(
    m: Seq<MaskCell>,
    w: int,
    h: int,
    s: Seq<(usize, usize, Seq<(usize, usize)>)>,
) -> bool {
    &&& forall|k: int| 0 <= k < s.len() ==> #[trigger] is_marked(m, w, h, s[k].0 as int, s[k].1 as int)
    &&& forall|k: int, l: int|
        0 <= k < l < s.len() ==> (#[trigger] s[k].0, s[k].1) != (#[trigger] s[l].0, s[l].1)
    &&& forall|i: int|
        0 <= i < m.len() && #[trigger] m[i] == MaskCell::Positive ==> exists|k: int|
            0 <= k < s.len() && #[trigger] step_at_index(s[k], w, i)
    &&& forall|k: int, j: int|
        0 <= k < s.len() && 0 <= j < s[k].2.len() ==> #[trigger] s[k].2[j] != (s[k].0, s[k].1)
}

pub open spec fn all_good(m: Seq<MaskCell>, w: int, h: int, s: Seq<(usize, usize)>) -> bool {
    forall|j: int| 0 <= j < s.len() ==> is_good(m, w, h, #[trigger] s[j].0 as int, s[j].1 as int)
}

proof fn lemma_all_good_add(m: Seq<MaskCell>, w: int, h: int, a: Seq<(usize, usize)>, b: Seq<(usize, usize)>)
    requires
        all_good(m, w, h, a),
        all_good(m, w, h, b),
    ensures
        all_good(m, w, h, a + b),
{
    assert forall|j: int| 0 <= j < (a + b).len() implies is_good(
        m,
        w,
        h,
        #[trigger] (a + b)[j].0 as int,
        (a + b)[j].1 as int,
    ) by {
        if j < a.len() {
            assert((a + b)[j] == a[j]);
        } else {
            assert((a + b)[j] == b[j - a.len()]);
        }
    }
}

proof fn lemma_keep_good(m: Seq<MaskCell>, w: int, h: int, x: int, y: int)
    requires
        w <= usize::MAX,
        h <= usize::MAX,
    ensures
        all_good(m, w, h, keep(m, w, h, x, y)),
{
}

/// Every pixel of a window is unmasked.
proof fn lemma_window_good(m: Seq<MaskCell>, w: int, h: int, x: int, y: int)
    requires
        w <= usize::MAX,
        h <= usize::MAX,
    ensures
        all_good(m, w, h, window(m, w, h, x, y)),
{
    let a = keep(m, w, h, x - 1, y - 1);
    let b = keep(m, w, h, x, y - 1);
    let c = keep(m, w, h, x + 1, y - 1);
    let d = keep(m, w, h, x - 1, y);
    let e = keep(m, w, h, x, y);
    let f = keep(m, w, h, x + 1, y);
    let g = keep(m, w, h, x - 1, y + 1);
    let k = keep(m, w, h, x, y + 1);
    let l = keep(m, w, h, x + 1, y + 1);
    lemma_keep_good(m, w, h, x - 1, y - 1);
    lemma_keep_good(m, w, h, x, y - 1);
    lemma_keep_good(m, w, h, x + 1, y - 1);
    lemma_keep_good(m, w, h, x - 1, y);
    lemma_keep_good(m, w, h, x, y);
    lemma_keep_good(m, w, h, x + 1, y);
    lemma_keep_good(m, w, h, x - 1, y + 1);
    lemma_keep_good(m, w, h, x, y + 1);
    lemma_keep_good(m, w, h, x + 1, y + 1);
    lemma_all_good_add(m, w, h, a, b);
    lemma_all_good_add(m, w, h, a + b, c);
    lemma_all_good_add(m, w, h, a + b + c, d);
    lemma_all_good_add(m, w, h, a + b + c + d, e);
    lemma_all_good_add(m, w, h, a + b + c + d + e, f);
    lemma_all_good_add(m, w, h, a + b + c + d + e + f, g);
    lemma_all_good_add(m, w, h, a + b + c + d + e + f + g, k);
    lemma_all_good_add(m, w, h, a + b + c + d + e + f + g + k, l);
}

/// A pixel masked after clearing index `idx` was masked before, elsewhere.
proof fn lemma_marked_after_clear(m: Seq<MaskCell>, w: int, h: int, idx: int, x: int, y: int)
    requires
        m.len() == w * h,
        0 <= idx < m.len(),
        is_marked(m.update(idx, MaskCell::Zero), w, h, x, y),
    ensures
        is_marked(m, w, h, x, y),
        y * w + x != idx,
{
    lemma_index_in_range(x, y, w, h);
}

proof fn lemma_traverse_from_fills(m: Seq<MaskCell>, w: int, h: int, cx: int, cy: int)
    requires
        m.len() == w * h,
        w <= usize::MAX,
        h <= usize::MAX,
        is_marked(m, w, h, cx, cy),
    ensures
        plan_fills_mask(m, w, h, traverse_from(m, w, h, cx, cy)),
    decreases nonzero_count(m), 0nat,
{
    lemma_index_in_range(cx, cy, w, h);
    lemma_count_clear(m, cy * w + cx);
    let idx = cy * w + cx;
    let m2 = m.update(idx, MaskCell::Zero);
    let step = (cx as usize, cy as usize, window(m, w, h, cx, cy));
    lemma_window_good(m, w, h, cx, cy);
    let rest = match next_point(m2, w, h, cx, cy) {
        Some(p) => traverse_from(m2, w, h, p.0, p.1),
        None => traverse(m2, w, h),
    };
    match next_point(m2, w, h, cx, cy) {
        Some(p) => {
            lemma_next_point_marked(m2, w, h, cx, cy);
            lemma_traverse_from_fills(m2, w, h, p.0, p.1);
        },
        None => {
            lemma_traverse_fills(m2, w, h);
        },
    }
    let s = traverse_from(m, w, h, cx, cy);
    assert(s == seq![step] + rest);
    assert forall|k: int| 0 <= k < s.len() implies #[trigger] is_marked(
        m,
        w,
        h,
        s[k].0 as int,
        s[k].1 as int,
    ) by {
        if k > 0 {
            assert(s[k] == rest[k - 1]);
            assert(is_marked(m2, w, h, rest[k - 1].0 as int, rest[k - 1].1 as int));
            lemma_marked_after_clear(m, w, h, idx, rest[k - 1].0 as int, rest[k - 1].1 as int);
        }
    }
    assert forall|k: int, l: int| 0 <= k < l < s.len() implies (#[trigger] s[k].0, s[k].1) != (
        #[trigger] s[l].0,
        s[l].1,
    ) by {
        assert(s[l] == rest[l - 1]);
        if k > 0 {
            assert(s[k] == rest[k - 1]);
        } else {
            assert(is_marked(m2, w, h, rest[l - 1].0 as int, rest[l - 1].1 as int));
            lemma_marked_after_clear(m, w, h, idx, rest[l - 1].0 as int, rest[l - 1].1 as int);
        }
    }
    assert forall|i: int| 0 <= i < m.len() && #[trigger] m[i] == MaskCell::Positive implies exists|
        k: int,
    | 0 <= k < s.len() && #[trigger] step_at_index(s[k], w, i) by {
        if i == idx {
            assert(step_at_index(s[0], w, i));
        } else {
            assert(m2[i] == MaskCell::Positive);
            let k = choose|k: int| 0 <= k < rest.len() && #[trigger] step_at_index(rest[k], w, i);
            assert(s[k + 1] == rest[k]);
            assert(step_at_index(s[k + 1], w, i));
        }
    }
    assert forall|k: int, j: int| 0 <= k < s.len() && 0 <= j < s[k].2.len() implies #[trigger] s[k].2[j]
        != (s[k].0, s[k].1) by {
        if k > 0 {
            assert(s[k] == rest[k - 1]);
        } else {
            assert(is_good(m, w, h, s[0].2[j].0 as int, s[0].2[j].1 as int));
        }
    }
}

proof fn lemma_traverse_fills(m: Seq<MaskCell>, w: int, h: int)
    requires
        m.len() == w * h,
        0 <= w <= usize::MAX,
        0 <= h <= usize::MAX,
    ensures
        plan_fills_mask(m, w, h, traverse(m, w, h)),
    decreases nonzero_count(m), 1nat,
{
    if w <= 0 {
        assert forall|i: int| 0 <= i < m.len() implies #[trigger] m[i] != MaskCell::Positive by {
            assert(false);
        }
    } else {
        lemma_first_positive(m, 0);
        match first_positive_from(m, 0) {
            Some(i) => {
                vstd::arithmetic::div_mod::lemma_fundamental_div_mod(i, w);
                let cx = i % w;
                let cy = i / w;
                vstd::arithmetic::div_mod::lemma_div_pos_is_pos(i, w);
                if cy >= h {
                    assert(cy * w >= w * h) by (nonlinear_arith)
                        requires
                            cy >= h,
                            w > 0,
                    ;
                }
                assert(cy * w == w * cy) by (nonlinear_arith);
                assert(i == cy * w + cx);
                lemma_traverse_from_fills(m, w, h, cx, cy);
            },
            None => {},
        }
    }
}

proof fn lemma_first_positive(m: Seq<MaskCell>, start: int)
    requires
        0 <= start,
    ensures
        match first_positive_from(m, start) {
            Some(i) => start <= i < m.len() && m[i] == MaskCell::Positive,
            None => forall|j: int| start <= j < m.len() ==> m[j] != MaskCell::Positive,
        },
    decreases m.len() - start,
{
    if start < m.len() && m[start] != MaskCell::Positive {
        lemma_first_positive(m, start + 1);
    }
}

/// The inpainting plan of a well-formed mask fills exactly the masked pixels
/// it reaches: each step fills a masked pixel, no pixel is filled twice, every
/// positive mask cell is filled, and a pixel is never averaged with itself.
pub proof fn infill_plan_fills_mask(mask: Seq<MaskCell>, width: usize, height: usize)
    requires
        mask.len() == width * height,
    ensures
        plan_fills_mask(
            mask,
            width as int,
            height as int,
            traverse(mask, width as int, height as int),
        ),
{
    lemma_traverse_fills(mask, width as int, height as int);
}

/// `q` is one of the eight pixels around `(x, y)`: it differs from `(x, y)`
/// by at most one in each coordinate, diagonals included.
pub open spec fn is_neighbour(x: int, y: int, q: (int, int)) -> bool {
    -1 <= q.0 - x <= 1 && -1 <= q.1 - y <= 1 && q != (x, y)
}

/// The unmasked pixels of the image among the eight around `(x, y)`.
pub open spec fn unmasked_neighbourhood(m: Seq<MaskCell>, w: int, h: int, x: int, y: int) -> Set<
    (int, int),
> {
    Set::new(|q: (int, int)| is_neighbour(x, y, q) && is_good(m, w, h, q.0, q.1))
}

spec fn add_if(s: Set<(int, int)>, b: bool, q: (int, int)) -> Set<(int, int)> {
    if b {
        s.insert(q)
    } else {
        s
    }
}

proof fn lemma_add_if(s: Set<(int, int)>, b: bool, q: (int, int))
    requires
        s.finite(),
        !s.contains(q),
    ensures
        add_if(s, b, q).finite(),
        add_if(s, b, q).len() == s.len() + b2n(b),
{
}

/// The score of a fill candidate is the number of unmasked pixels among all
/// eight of its neighbours, diagonals included.
pub proof fn score_counts_unmasked_neighbours(m: Seq<MaskCell>, w: int, h: int, x: int, y: int)
    ensures
        unmasked_neighbourhood(m, w, h, x, y).finite(),
        good_neighbors(m, w, h, x, y) == unmasked_neighbourhood(m, w, h, x, y).len(),
{
    let g = |q: (int, int)| is_good(m, w, h, q.0, q.1);
    let q0 = (x, y - 1);
    let q1 = (x - 1, y - 1);
    let q2 = (x - 1, y);
    let q3 = (x - 1, y + 1);
    let q4 = (x, y + 1);
    let q5 = (x + 1, y + 1);
    let q6 = (x + 1, y);
    let q7 = (x + 1, y - 1);
    let s0 = Set::<(int, int)>::empty();
    let s1 = add_if(s0, g(q0), q0);
    lemma_add_if(s0, g(q0), q0);
    let s2 = add_if(s1, g(q1), q1);
    lemma_add_if(s1, g(q1), q1);
    let s3 = add_if(s2, g(q2), q2);
    lemma_add_if(s2, g(q2), q2);
    let s4 = add_if(s3, g(q3), q3);
    lemma_add_if(s3, g(q3), q3);
    let s5 = add_if(s4, g(q4), q4);
    lemma_add_if(s4, g(q4), q4);
    let s6 = add_if(s5, g(q5), q5);
    lemma_add_if(s5, g(q5), q5);
    let s7 = add_if(s6, g(q6), q6);
    lemma_add_if(s6, g(q6), q6);
    let s8 = add_if(s7, g(q7), q7);
    lemma_add_if(s7, g(q7), q7);
    assert forall|q: (int, int)| #[trigger] unmasked_neighbourhood(m, w, h, x, y).contains(q)
        <==> s8.contains(q) by {
        if is_neighbour(x, y, q) {
            assert(q == q0 || q == q1 || q == q2 || q == q3 || q == q4 || q == q5 || q == q6 || q
                == q7);
        }
    }
    assert(unmasked_neighbourhood(m, w, h, x, y) =~= s8);
}

proof fn lemma_prefer_max(b: Option<(int, int, nat)>, c: Option<(int, int, nat)>)
    ensures
        (prefer(b, c) is None) <==> (b is None && c is None),
        prefer(b, c) matches Some(r) ==> (b == Some(r) || c == Some(r)),
        prefer(b, c) matches Some(r) ==> (b matches Some(bv) ==> bv.2 <= r.2),
        prefer(b, c) matches Some(r) ==> (c matches Some(cv) ==> cv.2 <= r.2),
        prefer(b, c) != c ==> prefer(b, c) == b && (c matches Some(cv) ==> b matches Some(bv)
            && cv.2 < bv.2),
{
}

proof fn lemma_candidate(m: Seq<MaskCell>, w: int, h: int, q: (int, int))
    ensures
        candidate(m, w, h, q.0, q.1) is Some <==> is_marked(m, w, h, q.0, q.1),
        candidate(m, w, h, q.0, q.1) matches Some(c) ==> c == (q.0, q.1, unmasked_neighbourhood(
            m,
            w,
            h,
            q.0,
            q.1,
        ).len()),
{
    score_counts_unmasked_neighbours(m, w, h, q.0, q.1);
}

/// The order in which a walk looks at the eight pixels around `(x, y)`: up,
/// up-left, left, down-left, down, down-right, right, up-right.
pub open spec fn visit_order(x: int, y: int) -> Seq<(int, int)> {
    seq![
        (x, y - 1),
        (x - 1, y - 1),
        (x - 1, y),
        (x - 1, y + 1),
        (x, y + 1),
        (x + 1, y + 1),
        (x + 1, y),
        (x + 1, y - 1),
    ]
}

/// The next pixel of a walk from `(x, y)` is a masked pixel among the eight
/// around it whose score is the highest of all of them, that score being
/// the number of its unmasked neighbours; of several with the highest score
/// the last one in `visit_order` is taken. With no masked pixel around
/// `(x, y)` the walk has no next pixel.
#[verifier::rlimit(60)]
pub proof fn next_point_is_a_best_masked_neighbour(
    m: Seq<MaskCell>,
    w: int,
    h: int,
    x: int,
    y: int,
)
    ensures
        match next_point(m, w, h, x, y) {
            None => forall|q: (int, int)|
                is_neighbour(x, y, q) ==> !#[trigger] is_marked(m, w, h, q.0, q.1),
            Some(c) => {
                &&& is_neighbour(x, y, (c.0, c.1))
                &&& is_marked(m, w, h, c.0, c.1)
                &&& c.2 == unmasked_neighbourhood(m, w, h, c.0, c.1).len()
                &&& forall|q: (int, int)|
                    is_neighbour(x, y, q) && #[trigger] is_marked(m, w, h, q.0, q.1)
                        ==> unmasked_neighbourhood(m, w, h, q.0, q.1).len() <= c.2
                &&& exists|j: int|
                    0 <= j < 8 && #[trigger] visit_order(x, y)[j] == (c.0, c.1) && forall|k: int|
                        j < k < 8 && is_marked(
                            m,
                            w,
                            h,
                            #[trigger] visit_order(x, y)[k].0,
                            visit_order(x, y)[k].1,
                        ) ==> unmasked_neighbourhood(
                            m,
                            w,
                            h,
                            visit_order(x, y)[k].0,
                            visit_order(x, y)[k].1,
                        ).len() < c.2
            },
        },
{
    let qs = visit_order(x, y);
    let c0 = candidate(m, w, h, qs[0].0, qs[0].1);
    let c1 = candidate(m, w, h, qs[1].0, qs[1].1);
    let c2 = candidate(m, w, h, qs[2].0, qs[2].1);
    let c3 = candidate(m, w, h, qs[3].0, qs[3].1);
    let c4 = candidate(m, w, h, qs[4].0, qs[4].1);
    let c5 = candidate(m, w, h, qs[5].0, qs[5].1);
    let c6 = candidate(m, w, h, qs[6].0, qs[6].1);
    let c7 = candidate(m, w, h, qs[7].0, qs[7].1);
    let cs = seq![c0, c1, c2, c3, c4, c5, c6, c7];
    let p0 = prefer(None, c0);
    let p1 = prefer(p0, c1);
    let p2 = prefer(p1, c2);
    let p3 = prefer(p2, c3);
    let p4 = prefer(p3, c4);
    let p5 = prefer(p4, c5);
    let p6 = prefer(p5, c6);
    let p7 = prefer(p6, c7);
    assert(next_point(m, w, h, x, y) == p7);
    lemma_prefer_max(None, c0);
    lemma_prefer_max(p0, c1);
    lemma_prefer_max(p1, c2);
    lemma_prefer_max(p2, c3);
    lemma_prefer_max(p3, c4);
    lemma_prefer_max(p4, c5);
    lemma_prefer_max(p5, c6);
    lemma_prefer_max(p6, c7);
    assert forall|j: int| 0 <= j < 8 implies {
        &&& (#[trigger] cs[j] is Some <==> is_marked(m, w, h, qs[j].0, qs[j].1))
        &&& cs[j] matches Some(c) ==> c == (qs[j].0, qs[j].1, unmasked_neighbourhood(
            m,
            w,
            h,
            qs[j].0,
            qs[j].1,
        ).len())
        &&& is_neighbour(x, y, qs[j])
        &&& (p7 is None ==> cs[j] is None)
        &&& (p7 matches Some(r) ==> (cs[j] matches Some(cv) ==> cv.2 <= r.2))
    } by {
        lemma_candidate(m, w, h, qs[j]);
    }
    assert(p7 matches Some(r) ==> exists|j: int| 0 <= j < 8 && #[trigger] cs[j] == Some(r)) by {
        if p7 is Some {
            let r = p7->0;
            if c7 == Some(r) {
                assert(cs[7] == Some(r));
            } else if c6 == Some(r) {
                assert(cs[6] == Some(r));
            } else if c5 == Some(r) {
                assert(cs[5] == Some(r));
            } else if c4 == Some(r) {
                assert(cs[4] == Some(r));
            } else if c3 == Some(r) {
                assert(cs[3] == Some(r));
            } else if c2 == Some(r) {
                assert(cs[2] == Some(r));
            } else if c1 == Some(r) {
                assert(cs[1] == Some(r));
            } else {
                assert(cs[0] == Some(r));
            }
        }
    }
    if p7 is Some {
        let r = p7->0;
        let j: int = if p7 != p6 {
            7
        } else if p6 != p5 {
            6
        } else if p5 != p4 {
            5
        } else if p4 != p3 {
            4
        } else if p3 != p2 {
            3
        } else if p2 != p1 {
            2
        } else if p1 != p0 {
            1
        } else {
            0
        };
        assert(cs[j] == Some(r));
        assert(qs[j] == (r.0, r.1));
        assert forall|k: int|
            j < k < 8 && is_marked(m, w, h, #[trigger] qs[k].0, qs[k].1) implies unmasked_neighbourhood(
            m,
            w,
            h,
            qs[k].0,
            qs[k].1,
        ).len() < r.2 by {
            assert(cs[k] is Some);
        }
    }
    assert forall|q: (int, int)| is_neighbour(x, y, q) implies exists|j: int|
        0 <= j < 8 && #[trigger] qs[j] == q by {
        if q == qs[0] {
        } else if q == qs[1] {
        } else if q == qs[2] {
        } else if q == qs[3] {
        } else if q == qs[4] {
        } else if q == qs[5] {
        } else if q == qs[6] {
        } else {
            assert(q == qs[7]);
        }
    }
}

/// The cell at column `x` of row `y` of a raster `w` cells wide.
pub open spec fn cell_at(cells: Seq<MaskCell>, w: int, x: int, y: int) -> MaskCell {
    cells[y * w + x]
}

proof fn lemma_row_index(x: int, y: int, w: int, h: int)
    requires
        0 <= x < w,
        0 <= y < h,
    ensures
        0 <= y * w + x < h * w,
        y * w + x < (y + 1) * w,
        (y + 1) * w <= h * w,
{
    assert(y * w + x < (y + 1) * w) by (nonlinear_arith)
        requires
            0 <= x < w,
    ;
    assert((y + 1) * w <= h * w) by (nonlinear_arith)
        requires
            y + 1 <= h,
            0 < w,
    ;
    assert(0 <= y * w) by (nonlinear_arith)
        requires
            0 <= y,
            0 < w,
    ;
}

proof fn lemma_earlier_row(xx: int, yy: int, y: int, w: int)
    requires
        0 <= xx < w,
        0 <= yy < y,
    ensures
        yy * w + xx < y * w,
{
    assert(yy * w + xx < (yy + 1) * w) by (nonlinear_arith)
        requires
            0 <= xx < w,
    ;
    assert((yy + 1) * w <= y * w) by (nonlinear_arith)
        requires
            yy + 1 <= y,
            0 < w,
    ;
}

/// Fits a mask to an image `width` x `height`: a mask wider than the image is
/// cut to the image's size around its centre; any other mask is kept as it is.
pub fn fit_mask_to_image(mask: &InpaintMask, width: usize, height: usize) -> (r: InpaintMask)
    requires
        mask.wf(),
        mask.width > width ==> mask.height >= height,
    ensures
        r.wf(),
        mask.width > width ==> {
            &&& r.width == width
            &&& r.height == height
            &&& forall|x: int, y: int|
                0 <= x < width && 0 <= y < height ==> #[trigger] cell_at(r.cells@, width as int, x, y)
                    == cell_at(
                    mask.cells@,
                    mask.width as int,
                    x + (mask.width - width) / 2,
                    y + (mask.height - height) / 2,
                )
        },
        mask.width <= width ==> r.width == mask.width && r.height == mask.height && r.cells@
            == mask.cells@,
{
    let mw = mask.width;
    let mh = mask.height;
    if mw <= width {
        let mut cells: Vec<MaskCell> = Vec::new();
        let n = mask.cells.len();
        for i in 0..n
            invariant
                n == mask.cells@.len(),
                cells@ =~= mask.cells@.take(i as int),
        {
            cells.push(mask.cells[i]);
        }
        proof {
            assert(mask.cells@.take(n as int) =~= mask.cells@);
        }
        return InpaintMask { width: mw, height: mh, cells };
    }
    let ox = (mw - width) / 2;
    let oy = (mh - height) / 2;
    let ghost src = mask.cells@;
    let total = mask.cells.len();
    proof {
        assert(mw * mh == mh * mw) by (nonlinear_arith);
    }
    let mut cells: Vec<MaskCell> = Vec::new();
    let mut y: usize = 0;
    while y < height
        invariant
            src == mask.cells@,
            src.len() == mw * mh,
            total == src.len(),
            mw * mh == mh * mw,
            width < mw,
            height <= mh,
            ox + width <= mw,
            oy + height <= mh,
            y <= height,
            cells@.len() == y * width,
            forall|xx: int, yy: int|
                0 <= xx < width && 0 <= yy < y ==> #[trigger] cell_at(cells@, width as int, xx, yy)
                    == cell_at(src, mw as int, xx + ox, yy + oy),
        decreases height - y,
    {
        let mut x: usize = 0;
        while x < width
            invariant
                src == mask.cells@,
                src.len() == mw * mh,
                total == src.len(),
                mw * mh == mh * mw,
                width < mw,
                ox + width <= mw,
                oy + height <= mh,
                y < height,
                x <= width,
                cells@.len() == y * width + x,
                forall|xx: int, yy: int|
                    0 <= xx < width && 0 <= yy < y ==> #[trigger] cell_at(
                        cells@,
                        width as int,
                        xx,
                        yy,
                    ) == cell_at(src, mw as int, xx + ox, yy + oy),
                forall|xx: int|
                    0 <= xx < x ==> #[trigger] cell_at(cells@, width as int, xx, y as int) == cell_at(
                        src,
                        mw as int,
                        xx + ox,
                        y + oy,
                    ),
            decreases width - x,
        {
            proof {
                lemma_row_index((ox + x) as int, (oy + y) as int, mw as int, mh as int);
            }
            let idx = (oy + y) * mw + (ox + x);
            let ghost before = cells@;
            cells.push(mask.cells[idx]);
            proof {
                assert forall|xx: int, yy: int|
                    0 <= xx < width && 0 <= yy < y implies #[trigger] cell_at(
                        cells@,
                        width as int,
                        xx,
                        yy,
                    ) == cell_at(src, mw as int, xx + ox, yy + oy) by {
                    lemma_earlier_row(xx, yy, y as int, width as int);
                    assert(cells@[yy * width + xx] == before[yy * width + xx]);
                    assert(cell_at(before, width as int, xx, yy) == cell_at(
                        src,
                        mw as int,
                        xx + ox,
                        yy + oy,
                    ));
                }
                assert forall|xx: int| 0 <= xx < x + 1 implies #[trigger] cell_at(
                    cells@,
                    width as int,
                    xx,
                    y as int,
                ) == cell_at(src, mw as int, xx + ox, y + oy) by {
                    if xx < x {
                        assert(cells@[y * width + xx] == before[y * width + xx]);
                        assert(cell_at(before, width as int, xx, y as int) == cell_at(
                            src,
                            mw as int,
                            xx + ox,
                            y + oy,
                        ));
                    } else {
                        assert(y * width + xx == before.len());
                        assert((oy + y) * mw + (ox + x) == (y + oy) * mw + (xx + ox));
                    }
                }
            }
            x = x + 1;
        }
        proof {
            assert((y + 1) * width == y * width + width) by (nonlinear_arith);
            assert forall|xx: int, yy: int|
                0 <= xx < width && 0 <= yy < y + 1 implies #[trigger] cell_at(
                    cells@,
                    width as int,
                    xx,
                    yy,
                ) == cell_at(src, mw as int, xx + ox, yy + oy) by {
                if yy == y {
                    assert(cell_at(cells@, width as int, xx, y as int) == cell_at(
                        src,
                        mw as int,
                        xx + ox,
                        y + oy,
                    ));
                }
            }
        }
        y = y + 1;
    }
    let r = InpaintMask { width, height, cells };
    proof {
        assert(r.cells@.len() == width * height) by (nonlinear_arith)
            requires
                r.cells@.len() == height * width,
        ;
    }
    r
}

/// Whether inpainting is possible for an instrument: its mask resolves.
pub fn inpaint_supported_for_instrument(
    config: &Config,
    instrument: Instrument,
    ctx: &SearchContext,
    existing: &Vec<String>,
) -> (r: bool)
    ensures
        r == mask_resolves(*config, instrument, *ctx, existing@),
{
    crate::inpaintmask::inpaint_supported_for_instrument(config, instrument, ctx, existing)
}

} // verus!
