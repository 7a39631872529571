use crate::util::{rectangle, Position, Rectangle};
use vstd::prelude::*;

verus! {

/// The one-pixel-wide bar that plots the reading at `index` (counted from
/// the right edge of the graph area) with the given height, standing on the
/// top edge of `area` and reaching down by `line_height`.
pub fn bar_rectangle(area: &Rectangle, index: u16, line_height: u16) -> (bar: Rectangle)
    requires
        index < area.right,
        line_height <= area.top,
    ensures
        bar.left == area.right - 1 - index,
        bar.right == area.right - index,
        bar.top == area.top,
        bar.bottom == area.top - line_height,
{
    let line_x = area.right - 1 - index;
    let line_position = Position::new(line_x, area.top - line_height);
    rectangle(1, line_height, &line_position)
}

/// For a graph area of the given size (as `rectangle` makes it), a bar for a
/// reading the graph keeps (its index below the graph's width) that is no
/// taller than the graph is one pixel wide, exactly `line_height` tall and
/// lies inside the area.
pub proof fn lemma_bar_inside_graph(
    area: Rectangle,
    bar: Rectangle,
    width: u16,
    height: u16,
    index: u16,
    line_height: u16,
)
    requires
        area.right == area.left + width,
        area.top == area.bottom + height,
        index < width,
        line_height <= height,
        bar.left == area.right - 1 - index,
        bar.right == area.right - index,
        bar.top == area.top,
        bar.bottom == area.top - line_height,
    ensures
        index < area.right,
        line_height <= area.top,
        area.left <= bar.left,
        bar.right <= area.right,
        area.bottom <= bar.bottom,
        bar.top <= area.top,
        bar.right == bar.left + 1,
        bar.top - bar.bottom == line_height,
{
}

} // verus!
