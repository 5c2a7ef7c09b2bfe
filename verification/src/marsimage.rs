//! Mars image operations decided on integers: the flat fielding steps, and
//! destretching of 8-bit images, where values stretched apart by an earlier linear
//! scaling leave empty histogram bins between them, and the destretch lookup
//! table closes those gaps again.

use vstd::prelude::*;
use crate::calibrate::{centered_subframe, step_if, to_window, win, CalStep, Window};

verus! {

/// Bins of the value histogram.
pub const HISTOGRAM_BINS: usize = 255;

/// How many times `k` occurs in `s`.
pub open spec fn count_of(s: Seq<usize>, k: int) -> nat
    decreases s.len(),
{
    if s.len() == 0 {
        0
    } else {
        count_of(s.drop_last(), k) + if s.last() == k {
            1nat
        } else {
            0nat
        }
    }
}

proof fn lemma_count_bound(s: Seq<usize>, k: int)
    ensures
        count_of(s, k) <= s.len(),
    decreases s.len(),
{
    if s.len() > 0 {
        lemma_count_bound(s.drop_last(), k);
    }
}

/// The counts of the bins below `n`, added up.
pub open spec fn total_count(s: Seq<usize>, n: int) -> nat
    decreases n,
{
    if n <= 0 {
        0
    } else {
        total_count(s, n - 1) + count_of(s, n - 1)
    }
}

proof fn lemma_total_push(s: Seq<usize>, v: usize, n: int)
    ensures
        total_count(s.push(v), n) == total_count(s, n) + if 0 <= v < n {
            1nat
        } else {
            0nat
        },
    decreases n,
{
    if n > 0 {
        lemma_total_push(s, v, n - 1);
        assert(s.push(v).drop_last() =~= s);
    }
}

/// A histogram counts every value once: when every value is below the
/// number of bins, the bins add up to the number of values.
pub proof fn histogram_counts_every_value(values: Seq<usize>)
    requires
        forall|i: int| 0 <= i < values.len() ==> values[i] < HISTOGRAM_BINS,
    ensures
        total_count(values, HISTOGRAM_BINS as int) == values.len(),
    decreases values.len(),
{
    if values.len() == 0 {
        lemma_total_empty(values, HISTOGRAM_BINS as int);
    } else {
        let rest = values.drop_last();
        assert forall|i: int| 0 <= i < rest.len() implies rest[i] < HISTOGRAM_BINS by {
            assert(rest[i] == values[i]);
        }
        histogram_counts_every_value(rest);
        assert(rest.push(values.last()) =~= values);
        assert(values[values.len() - 1] == values.last());
        lemma_total_push(rest, values.last(), HISTOGRAM_BINS as int);
    }
}

proof fn lemma_total_empty(s: Seq<usize>, n: int)
    requires
        s.len() == 0,
    ensures
        total_count(s, n) == 0,
    decreases n,
{
    if n > 0 {
        lemma_total_empty(s, n - 1);
    }
}

/// Counts the values of all bands, each a histogram bin below 255.
pub fn calc_histogram(values: &Vec<usize>) -> (hist: Vec<u64>)
    requires
        forall|i: int| 0 <= i < values@.len() ==> values@[i] < HISTOGRAM_BINS,
    ensures
        hist@.len() == HISTOGRAM_BINS,
        forall|k: int| 0 <= k < HISTOGRAM_BINS ==> hist@[k] == count_of(values@, k),
{
    let mut hist: Vec<u64> = Vec::new();
    for k in 0..HISTOGRAM_BINS
        invariant
            hist@.len() == k,
            forall|j: int| 0 <= j < k ==> hist@[j] == 0,
    {
        hist.push(0);
    }
    let n = values.len();
    for i in 0..n
        invariant
            n == values@.len(),
            forall|j: int| 0 <= j < values@.len() ==> values@[j] < HISTOGRAM_BINS,
            hist@.len() == HISTOGRAM_BINS,
            forall|k: int| 0 <= k < HISTOGRAM_BINS ==> hist@[k] == count_of(values@.take(i as int), k),
    {
        let v = values[i];
        proof {
            assert(values@.take(i + 1).drop_last() =~= values@.take(i as int));
            assert(values@.take(i + 1).last() == v);
            lemma_count_bound(values@.take(i as int), v as int);
        }
        let c = hist[v];
        hist.set(v, c + 1);
    }
    proof {
        assert(values@.take(n as int) =~= values@);
    }
    hist
}

/// A gap is an empty bin between two non-empty ones; the first and last
/// bins are never gaps.
pub open spec fn is_gap(hist: Seq<u64>, i: int) -> bool {
    0 < i < HISTOGRAM_BINS - 1 && hist[i] == 0 && hist[i - 1] > 0 && hist[i + 1] > 0
}

/// Whether bin `index` of the histogram is a gap.
pub fn is_index_a_histogram_gap(hist: &Vec<u64>, index: usize) -> (r: bool)
    requires
        hist@.len() == HISTOGRAM_BINS,
        index < HISTOGRAM_BINS,
    ensures
        r == is_gap(hist@, index as int),
{
    if index == 0 || index == HISTOGRAM_BINS - 1 {
        false
    } else {
        hist[index] == 0 && hist[index - 1] > 0 && hist[index + 1] > 0
    }
}

/// The number of gaps among bins `0..=i`.
pub open spec fn gaps_through(hist: Seq<u64>, i: int) -> nat
    decreases i + 1,
{
    if i < 0 {
        0
    } else {
        gaps_through(hist, i - 1) + if is_gap(hist, i) {
            1nat
        } else {
            0nat
        }
    }
}

proof fn lemma_gaps_bound(hist: Seq<u64>, i: int)
    requires
        i >= -1,
    ensures
        gaps_through(hist, i) <= i + 1,
        i >= 0 ==> gaps_through(hist, i) <= i,
    decreases i + 1,
{
    if i >= 0 {
        lemma_gaps_bound(hist, i - 1);
    }
}

/// The destretch table: each value moves down by the number of gaps at or
/// below it. It starts at zero, never raises a value, and rises by at most
/// one from each value to the next, so the order of values is kept.
pub fn compute_destretch_lut(hist: &Vec<u64>) -> (lut: Vec<u64>)
    requires
        hist@.len() == HISTOGRAM_BINS,
    ensures
        lut@.len() == HISTOGRAM_BINS,
        forall|i: int| 0 <= i < HISTOGRAM_BINS ==> lut@[i] == i - gaps_through(hist@, i),
        lut@[0] == 0,
        forall|i: int| 0 <= i < HISTOGRAM_BINS ==> lut@[i] <= i,
        forall|i: int|
            0 <= i < HISTOGRAM_BINS - 1 ==> lut@[i] <= #[trigger] lut@[i + 1] <= lut@[i] + 1,
        forall|i: int|
            0 <= i < HISTOGRAM_BINS - 1 ==> #[trigger] lut@[i + 1] == lut@[i] + if i + 1
                < HISTOGRAM_BINS - 1 && hist@[i + 1] == 0 && hist@[i] > 0 && hist@[i + 2] > 0 {
                0int
            } else {
                1int
            },
{
    let mut lut: Vec<u64> = Vec::new();
    let mut minus: u64 = 0;
    for i in 0..HISTOGRAM_BINS
        invariant
            hist@.len() == HISTOGRAM_BINS,
            lut@.len() == i,
            minus == gaps_through(hist@, i - 1),
            forall|j: int| 0 <= j < i ==> lut@[j] == j - gaps_through(hist@, j),
    {
        proof {
            lemma_gaps_bound(hist@, i as int);
        }
        if is_index_a_histogram_gap(hist, i) {
            minus = minus + 1;
        }
        lut.push(i as u64 - minus);
    }
    proof {
        assert forall|i: int| 0 <= i < HISTOGRAM_BINS - 1 implies lut@[i] <= #[trigger] lut@[i
            + 1] <= lut@[i] + 1 by {
            assert(gaps_through(hist@, i + 1) == gaps_through(hist@, i) + if is_gap(hist@, i + 1) {
                1nat
            } else {
                0nat
            });
        }
        assert forall|i: int| 0 <= i < HISTOGRAM_BINS implies lut@[i] <= i by {
            lemma_gaps_bound(hist@, i);
        }
        assert forall|i: int| 0 <= i < HISTOGRAM_BINS - 1 implies #[trigger] lut@[i + 1] == lut@[i]
            + if i + 1 < HISTOGRAM_BINS - 1 && hist@[i + 1] == 0 && hist@[i] > 0 && hist@[i + 2]
            > 0 {
            0int
        } else {
            1int
        } by {
            assert(gaps_through(hist@, i + 1) == gaps_through(hist@, i) + if is_gap(hist@, i + 1) {
                1nat
            } else {
                0nat
            });
        }
        assert(gaps_through(hist@, -1) == 0);
        assert(!is_gap(hist@, 0));
        assert(gaps_through(hist@, 0) == 0);
    }
    lut
}

/// A bin is a gap exactly when it is empty and both of its neighbouring bins
/// are filled; so a histogram without such a lone empty bin has no gap at
/// all, and its destretch table maps every value to itself.
pub proof fn gaps_are_lone_empty_bins(hist: Seq<u64>)
    requires
        hist.len() == HISTOGRAM_BINS,
    ensures
        forall|i: int|
            0 <= i < HISTOGRAM_BINS ==> (#[trigger] is_gap(hist, i) <==> (0 < i && i + 1
                < HISTOGRAM_BINS && hist[i] == 0 && hist[i - 1] > 0 && hist[i + 1] > 0)),
        (forall|i: int|
            0 < i < HISTOGRAM_BINS - 1 ==> !(#[trigger] hist[i] == 0 && hist[i - 1] > 0 && hist[i
                + 1] > 0)) ==> forall|i: int|
            0 <= i < HISTOGRAM_BINS ==> i - #[trigger] gaps_through(hist, i) == i,
{
    if forall|i: int|
        0 < i < HISTOGRAM_BINS - 1 ==> !(#[trigger] hist[i] == 0 && hist[i - 1] > 0 && hist[i + 1]
            > 0) {
        assert forall|i: int| 0 <= i < HISTOGRAM_BINS implies i - #[trigger] gaps_through(hist, i)
            == i by {
            lemma_no_gaps_through(hist, i);
        }
    }
}

proof fn lemma_no_gaps_through(hist: Seq<u64>, i: int)
    requires
        hist.len() == HISTOGRAM_BINS,
        i < HISTOGRAM_BINS,
        forall|j: int|
            0 < j < HISTOGRAM_BINS - 1 ==> !(#[trigger] hist[j] == 0 && hist[j - 1] > 0 && hist[j
                + 1] > 0),
    ensures
        gaps_through(hist, i) == 0,
    decreases i + 1,
{
    if i >= 0 {
        lemma_no_gaps_through(hist, i - 1);
        if 0 < i < HISTOGRAM_BINS - 1 {
            assert(!(hist[i] == 0 && hist[i - 1] > 0 && hist[i + 1] > 0));
        }
    }
}

/// Each value replaced by its entry in the destretch table.
pub fn destretch_buffer_with_lut(values: &Vec<usize>, lut: &Vec<u64>) -> (r: Vec<u64>)
    requires
        lut@.len() == HISTOGRAM_BINS,
        forall|i: int| 0 <= i < values@.len() ==> values@[i] < HISTOGRAM_BINS,
    ensures
        r@.len() == values@.len(),
        forall|i: int| 0 <= i < values@.len() ==> r@[i] == lut@[values@[i] as int],
{
    let mut out: Vec<u64> = Vec::new();
    let n = values.len();
    for i in 0..n
        invariant
            n == values@.len(),
            lut@.len() == HISTOGRAM_BINS,
            forall|j: int| 0 <= j < values@.len() ==> values@[j] < HISTOGRAM_BINS,
            out@.len() == i,
            forall|j: int| 0 <= j < i ==> out@[j] == lut@[values@[j] as int],
    {
        out.push(lut[values[i]]);
    }
    out
}

/// The window of a metadata subframe rectangle `(x, y, width, height)`,
/// whose corner counts from one.
pub open spec fn subframe_window(rect: (usize, usize, usize, usize)) -> Window {
    win((rect.0 - 1) as usize, (rect.1 - 1) as usize, rect.2, rect.3)
}

/// The window of a metadata subframe rectangle, corner counted from one.
pub fn to_subframe_window(rect: (usize, usize, usize, usize)) -> (r: Window)
    requires
        rect.0 >= 1,
        rect.1 >= 1,
    ensures
        r == subframe_window(rect),
{
    to_window((rect.0 - 1, rect.1 - 1, rect.2, rect.3))
}

/// The steps of flat fielding an `image_width` x `image_height` image with its
/// instrument's flat field, when there is one (`flat_size`): the flat is cut
/// to the image's subframe rectangle, then around its centre when still
/// wider than the image, and applied.
pub open spec fn flatfield_steps(
    flat_size: Option<(usize, usize)>,
    subframe: Option<(usize, usize, usize, usize)>,
    image_width: usize,
    image_height: usize,
) -> Seq<CalStep> {
    match flat_size {
        None => seq![],
        Some(fs) => {
            let (fw, fh) = match subframe {
                Some(r) => (r.2, r.3),
                None => fs,
            };
            (match subframe {
                Some(r) => seq![CalStep::CropFlat(subframe_window(r))],
                None => seq![],
            }) + step_if(
                fw > image_width,
                CalStep::CropFlat(
                    win(
                        ((fw - image_width) / 2) as usize,
                        ((fh - image_height) / 2) as usize,
                        image_width,
                        image_height,
                    ),
                ),
            ) + seq![CalStep::Flatfield]
        },
    }
}

/// Whether a subframe rectangle has its corner counted from one, and a flat
/// cut to it, when still wider than the image, is at least as high.
pub open spec fn flatfield_fits(
    flat_size: Option<(usize, usize)>,
    subframe: Option<(usize, usize, usize, usize)>,
    image_width: usize,
    image_height: usize,
) -> bool {
    match flat_size {
        None => true,
        Some(fs) => {
            let (fw, fh) = match subframe {
                Some(r) => (r.2, r.3),
                None => fs,
            };
            &&& subframe matches Some(r) ==> r.0 >= 1 && r.1 >= 1
            &&& fw > image_width ==> fh >= image_height
        },
    }
}

/// The steps of `flatfield_steps`.
pub fn flatfield(
    flat_size: Option<(usize, usize)>,
    subframe: Option<(usize, usize, usize, usize)>,
    image_width: usize,
    image_height: usize,
) -> (r: Vec<CalStep>)
    requires
        flatfield_fits(flat_size, subframe, image_width, image_height),
    ensures
        r@ == flatfield_steps(flat_size, subframe, image_width, image_height),
{
    let mut steps: Vec<CalStep> = Vec::new();
    let fs = match flat_size {
        None => {
            return steps;
        },
        Some(fs) => fs,
    };
    let (fw, fh) = match subframe {
        Some(r) => {
            steps.push(CalStep::CropFlat(to_subframe_window(r)));
            (r.2, r.3)
        },
        None => fs,
    };
    match centered_subframe(fw, fh, image_width, image_height) {
        Some(c) => {
            steps.push(CalStep::CropFlat(to_window(c)));
        },
        None => {},
    }
    steps.push(CalStep::Flatfield);
    assert(steps@ =~= flatfield_steps(flat_size, subframe, image_width, image_height));
    steps
}

} // verus!
