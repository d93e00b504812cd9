use vstd::prelude::*;

use vstd::arithmetic::div_mod::{
    lemma_div_is_ordered, lemma_div_multiples_vanish, lemma_div_of0, lemma_hoist_over_denominator,
};
use vstd::arithmetic::mul::lemma_mul_inequality;

verus! {

/// How many display columns a spectrum of `raw_len` bins occupies on a
/// display of `width` columns: one per raw bin when they all fit, else one
/// per display column.
pub open spec fn display_columns(raw_len: int, width: int) -> int {
    if raw_len <= width {
        raw_len
    } else {
        width
    }
}

/// The raw-bin index where display column `i` begins. When the raw bins all
/// fit they map one to one; otherwise column `i` starts at the proportional
/// boundary `i * raw_len / width`, fractions truncated toward the source
/// index. Column `i` covers the raw bins from `column_boundary(.., i)` up to
/// but excluding `column_boundary(.., i + 1)`.
pub open spec fn column_boundary(raw_len: int, width: int, i: int) -> int {
    if raw_len <= width {
        i
    } else {
        i * raw_len / width
    }
}

/// One column's run of raw bins is never empty and never reaches past the
/// raw spectrum.
proof fn lemma_boundary_step(raw_len: int, width: int, i: int)
    requires
        0 < width,
        0 < raw_len,
        0 <= i < display_columns(raw_len, width),
    ensures
        column_boundary(raw_len, width, i) < column_boundary(raw_len, width, i + 1),
        column_boundary(raw_len, width, i + 1) <= raw_len,
        0 <= column_boundary(raw_len, width, i),
{
    if raw_len <= width {
        // one raw bin per column
    } else {
        // lower: (i*L + w) / w == i*L/w + 1, and (i+1)*L >= i*L + w + 1
        assert((i + 1) * raw_len == i * raw_len + raw_len) by (nonlinear_arith);
        lemma_hoist_over_denominator(i * raw_len, 1, width as nat);
        lemma_div_is_ordered(i * raw_len + width, (i + 1) * raw_len, width);
        // upper: (i+1)*L <= w*L, and (w*L)/w == L
        lemma_mul_inequality(i + 1, width, raw_len);
        lemma_div_is_ordered((i + 1) * raw_len, width * raw_len, width);
        lemma_div_multiples_vanish(raw_len, width);
        // the start is nonnegative
        assert(0 * raw_len == 0) by (nonlinear_arith);
        lemma_div_of0(width);
        lemma_mul_inequality(0, i, raw_len);
        lemma_div_is_ordered(0, i * raw_len, width);
    }
}

/// The proportional partition is contiguous and exact: the first column
/// starts at raw bin zero, every column is nonempty and begins where the
/// previous one ended, and the last column ends right after the last raw bin.
pub proof fn lemma_partition_covers(raw_len: int, width: int)
    requires
        0 < raw_len,
        0 < width,
    ensures
        column_boundary(raw_len, width, 0) == 0,
        column_boundary(raw_len, width, display_columns(raw_len, width)) == raw_len,
        forall|i: int|
            0 <= i < display_columns(raw_len, width) ==> #[trigger] column_boundary(
                raw_len,
                width,
                i,
            ) < column_boundary(raw_len, width, i + 1),
{
    if raw_len > width {
        assert(0 * raw_len == 0) by (nonlinear_arith);
        lemma_div_of0(width);
        assert(width * raw_len == raw_len * width) by (nonlinear_arith);
        lemma_div_multiples_vanish(raw_len, width);
    }
    assert forall|i: int| 0 <= i < display_columns(raw_len, width) implies #[trigger] column_boundary(
        raw_len,
        width,
        i,
    ) < column_boundary(raw_len, width, i + 1) by {
        lemma_boundary_step(raw_len, width, i);
    }
}

/// The run of raw bins behind each display column, oldest column first: the
/// half-open index spans of the proportional partition. An empty spectrum or
/// a zero-width display yields no spans; when the raw bins fit the display
/// each span holds exactly its own bin, so aggregation leaves the spectrum
/// unchanged.
pub fn display_spans(raw_len: usize, width: usize) -> (spans: Vec<(usize, usize)>)
    ensures
        raw_len == 0 || width == 0 ==> spans@.len() == 0,
        raw_len > 0 && width > 0 ==> {
            &&& spans@.len() == display_columns(raw_len as int, width as int)
            &&& forall|i: int|
                0 <= i < spans@.len() ==> (#[trigger] spans@[i]).0 as int == column_boundary(
                    raw_len as int,
                    width as int,
                    i,
                )
            &&& forall|i: int|
                0 <= i < spans@.len() ==> (#[trigger] spans@[i]).1 as int == column_boundary(
                    raw_len as int,
                    width as int,
                    i + 1,
                )
        },
        forall|i: int|
            0 <= i < spans@.len() ==> (#[trigger] spans@[i]).0 < spans@[i].1 && spans@[i].1
                <= raw_len,
{
    if raw_len == 0 || width == 0 {
        return Vec::new();
    }
    let mut spans: Vec<(usize, usize)> = Vec::new();
    if raw_len <= width {
        let mut i: usize = 0;
        while i < raw_len
            invariant
                0 < raw_len <= width,
                i <= raw_len,
                spans@.len() == i,
                forall|k: int|
                    0 <= k < i ==> (#[trigger] spans@[k]).0 == k && spans@[k].1 == k + 1,
            decreases raw_len - i,
        {
            spans.push((i, i + 1));
            i = i + 1;
        }
        spans
    } else {
        let mut i: usize = 0;
        while i < width
            invariant
                0 < width < raw_len,
                i <= width,
                spans@.len() == i,
                forall|k: int|
                    0 <= k < i ==> (#[trigger] spans@[k]).0 as int == column_boundary(
                        raw_len as int,
                        width as int,
                        k,
                    ),
                forall|k: int|
                    0 <= k < i ==> (#[trigger] spans@[k]).1 as int == column_boundary(
                        raw_len as int,
                        width as int,
                        k + 1,
                    ),
                forall|k: int|
                    0 <= k < i ==> (#[trigger] spans@[k]).0 < spans@[k].1 && spans@[k].1
                        <= raw_len,
            decreases width - i,
        {
            proof {
                lemma_boundary_step(raw_len as int, width as int, i as int);
                assert((i as int) * (raw_len as int) <= (u64::MAX as int) * (u64::MAX as int)
                    && ((i + 1) as int) * (raw_len as int) <= (u64::MAX as int) * (u64::MAX
                    as int)) by (nonlinear_arith)
                    requires
                        0 <= i as int <= u64::MAX as int - 1,
                        0 <= raw_len as int <= u64::MAX as int,
                ;
            }
            let start = (((i as u128) * (raw_len as u128)) / (width as u128)) as usize;
            let end = ((((i as u128) + 1) * (raw_len as u128)) / (width as u128)) as usize;
            spans.push((start, end));
            i = i + 1;
        }
        spans
    }
}

/// A bar that would round to zero rows while its magnitude was not exactly
/// zero is forced to one row, so that quiet signal never looks like silence.
pub fn bar_rows(scaled_rows: u16, magnitude_positive: bool) -> (r: u16)
    ensures
        r == (if scaled_rows == 0 && magnitude_positive {
            1u16
        } else {
            scaled_rows
        }),
{
    if scaled_rows == 0 && magnitude_positive {
        1
    } else {
        scaled_rows
    }
}

/// The bar-chart renderer's state between ticks: the bar height, in rows, of
/// every display column of the previous frame, kept only to paint the decaying
/// afterimage before the new bars are drawn. Drawing itself, the decibel
/// scale and the colors live with the caller.
pub struct SpectrumVisualizer {
    prev_bar_heights: Vec<u16>,
}

impl SpectrumVisualizer {
    /// The previous frame's bar heights, one per display column.
    pub closed spec fn spec_prev_heights(&self) -> Seq<u16> {
        self.prev_bar_heights@
    }

    /// A fresh renderer with no history: the first tick paints no afterimage.
    pub fn new() -> (r: SpectrumVisualizer)
        ensures
            r.spec_prev_heights() == Seq::<u16>::empty(),
    {
        SpectrumVisualizer { prev_bar_heights: Vec::new() }
    }

    /// Makes the history match the current display width: columns that
    /// survive keep their previous height, new columns start at zero so they
    /// carry no stale afterimage.
    pub fn sync_history_width(&mut self, width: usize)
        ensures
            final(self).spec_prev_heights().len() == width,
            forall|i: int|
                0 <= i < width ==> #[trigger] final(self).spec_prev_heights()[i] == (if i < old(
                    self,
                ).spec_prev_heights().len() {
                    old(self).spec_prev_heights()[i]
                } else {
                    0u16
                }),
    {
        if self.prev_bar_heights.len() > width {
            self.prev_bar_heights.truncate(width);
        }
        while self.prev_bar_heights.len() < width
            invariant
                self.prev_bar_heights@.len() <= width,
                self.prev_bar_heights@.len() < width ==> self.prev_bar_heights@.len() >= old(
                    self,
                ).spec_prev_heights().len(),
                forall|i: int|
                    0 <= i < self.prev_bar_heights@.len() ==> #[trigger] self.prev_bar_heights@[i]
                        == (if i < old(self).spec_prev_heights().len() {
                        old(self).spec_prev_heights()[i]
                    } else {
                        0u16
                    }),
            decreases width - self.prev_bar_heights@.len(),
        {
            self.prev_bar_heights.push(0);
        }
    }

    /// The previous frame's bar heights, for painting the afterimage.
    pub fn prev_heights(&self) -> (r: &Vec<u16>)
        ensures
            r@ == self.spec_prev_heights(),
    {
        &self.prev_bar_heights
    }

    /// Stores this tick's bar heights as the next tick's afterimage.
    pub fn commit_heights(&mut self, heights: Vec<u16>)
        ensures
            final(self).spec_prev_heights() == heights@,
    {
        self.prev_bar_heights = heights;
    }
}

} // verus!
