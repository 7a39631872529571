pub mod cpu;
pub mod gpu;
pub mod graph;
pub mod ram;
pub mod text;

use vstd::prelude::*;

verus! {

/// The horizontal gap between two neighbouring widgets.
pub const WIDGET_MARGIN: u16 = 10;

/// The room left on each side of the row of widgets.
pub const WINDOW_PADDING: i32 = 0;

/// The sum of the given widths.
pub open spec fn sum_widths(widths: Seq<u16>) -> int
    decreases widths.len(),
{
    if widths.len() == 0 {
        0
    } else {
        sum_widths(widths.drop_last()) + widths.last()
    }
}

/// The width of the gaps between `count` widgets in a row.
pub open spec fn margins_width(count: nat) -> int {
    if count == 0 {
        0
    } else {
        (count - 1) * WIDGET_MARGIN
    }
}

/// The width of the overlay window that holds widgets of the given widths.
pub open spec fn total_width(widths: Seq<u16>) -> int {
    sum_widths(widths) + margins_width(widths.len()) + WINDOW_PADDING
}

/// Where the widget at `index` begins: every widget before it, each
/// followed by a margin.
pub open spec fn widget_offset(widths: Seq<u16>, index: int) -> int {
    sum_widths(widths.take(index)) + index * WIDGET_MARGIN
}

proof fn lemma_prefix_sum_bounds(widths: Seq<u16>, i: int)
    requires
        0 <= i <= widths.len(),
    ensures
        0 <= sum_widths(widths.take(i)) <= sum_widths(widths),
    decreases widths.len(),
{
    if widths.len() > 0 {
        if i == widths.len() {
            assert(widths.take(i) =~= widths);
            lemma_prefix_sum_bounds(widths.drop_last(), i - 1);
            assert(widths.drop_last().take(i - 1) =~= widths.drop_last());
        } else {
            lemma_prefix_sum_bounds(widths.drop_last(), i);
            assert(widths.drop_last().take(i) =~= widths.take(i));
        }
    }
}

/// The width the widgets of the given widths take side by side, margins and
/// padding included.
pub fn calculate_width(widths: &[u16]) -> (w: i32)
    requires
        total_width(widths@) <= i32::MAX,
    ensures
        w == total_width(widths@),
{
    let mut sum: i32 = 0;
    let mut i: usize = 0;
    while i < widths.len()
        invariant
            i <= widths.len(),
            sum == sum_widths(widths@.take(i as int)),
            total_width(widths@) <= i32::MAX,
        decreases widths.len() - i,
    {
        proof {
            assert(widths@.take(i + 1).drop_last() =~= widths@.take(i as int));
            lemma_prefix_sum_bounds(widths@, i + 1);
        }
        sum = sum + widths[i] as i32;
        i = i + 1;
    }
    proof {
        assert(widths@.take(widths.len() as int) =~= widths@);
        lemma_prefix_sum_bounds(widths@, 0);
    }
    let gaps: usize = widths.len().saturating_sub(1);
    assert(gaps * 10 == margins_width(widths.len() as nat));
    let margins = gaps as i32 * (WIDGET_MARGIN as i32);
    sum + margins + WINDOW_PADDING
}

/// The last widget laid out by `WidgetRenderer::layout` ends where the
/// window that `calculate_width` sizes for the same widgets ends: the window
/// is exactly as wide as the row of widgets.
pub proof fn lemma_row_fills_window(widths: Seq<u16>)
    requires
        widths.len() > 0,
    ensures
        widget_offset(widths, widths.len() - 1) + widths.last() == total_width(widths),
{
    assert(widths.take(widths.len() - 1) =~= widths.drop_last());
}

/// Each widget begins a margin after the end of the one before it.
pub proof fn lemma_offsets_step(widths: Seq<u16>, index: int)
    requires
        0 <= index < widths.len(),
    ensures
        widget_offset(widths, index + 1) == widget_offset(widths, index) + widths[index] + WIDGET_MARGIN,
        widget_offset(widths, 0) == 0,
{
    assert(widths.take(index + 1).drop_last() =~= widths.take(index));
    assert(widths.take(0) =~= Seq::<u16>::empty());
}

pub(crate) proof fn lemma_offsets_monotone(widths: Seq<u16>, i: int, j: int)
    requires
        0 <= i <= j <= widths.len(),
    ensures
        widget_offset(widths, i) <= widget_offset(widths, j),
    decreases j - i,
{
    if i < j {
        lemma_offsets_step(widths, j - 1);
        lemma_offsets_monotone(widths, i, j - 1);
    }
}

} // verus!
