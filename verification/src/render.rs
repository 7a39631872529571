use crate::util::Position;
use crate::window::ScreenRect;
use crate::widget::{lemma_offsets_monotone, lemma_offsets_step, widget_offset, WIDGET_MARGIN};
use vstd::prelude::*;

verus! {

/// A piece of text to be drawn.
pub struct Text {
    value: String,
}

impl Text {
    pub fn from(value: String) -> (t: Text)
        ensures
            t.spec_value() == value@,
    {
        Text { value }
    }

    /// The characters of the text.
    pub closed spec fn spec_value(&self) -> Seq<char> {
        self.value@
    }

    pub fn value(&self) -> (v: &str)
        ensures
            v@ == self.spec_value(),
    {
        self.value.as_str()
    }
}

/// Lays widgets out in a row across the overlay window.
pub struct WidgetRenderer {}

impl WidgetRenderer {
    pub fn new() -> Self {
        Self {}
    }

    /// Where the next widget begins, after one of width `width` that begins
    /// at `offset`.
    pub fn next_offset(&self, offset: u16, width: u16) -> (next: u16)
        requires
            offset + width + WIDGET_MARGIN <= u16::MAX,
        ensures
            next == offset + width + WIDGET_MARGIN,
    {
        offset + width + WIDGET_MARGIN
    }

    /// The positions at which widgets of the given widths are drawn, left to
    /// right from the window's left edge, a margin apart.
    pub fn layout(&self, widths: &[u16]) -> (positions: Vec<Position>)
        requires
            widget_offset(widths@, widths.len() as int) <= u16::MAX,
        ensures
            positions.len() == widths.len(),
            forall|i: int| 0 <= i < widths.len() ==> (#[trigger] positions@[i]).x == widget_offset(widths@, i)
                && positions@[i].y == 0,
    {
        let mut positions: Vec<Position> = Vec::new();
        let mut offset_x: u16 = 0;
        let mut i: usize = 0;
        proof {
            assert(widths@.take(0) =~= Seq::<u16>::empty());
        }
        while i < widths.len()
            invariant
                i <= widths.len(),
                positions.len() == i,
                offset_x == widget_offset(widths@, i as int),
                widget_offset(widths@, widths.len() as int) <= u16::MAX,
                forall|j: int| 0 <= j < i ==> (#[trigger] positions@[j]).x == widget_offset(widths@, j)
                    && positions@[j].y == 0,
            decreases widths.len() - i,
        {
            proof {
                lemma_offsets_step(widths@, i as int);
                lemma_offsets_monotone(widths@, i + 1, widths.len() as int);
            }
            positions.push(Position::new(offset_x, 0));
            offset_x = self.next_offset(offset_x, widths[i]);
            i = i + 1;
        }
        positions
    }
}

/// The pixel size to draw the window at, from its client rectangle: the
/// differences of the edges taken as unsigned 32-bit numbers (a negative
/// difference wraps), or nothing to draw when either is zero.
pub fn drawing_size(client: &ScreenRect) -> (size: Option<(u32, u32)>)
    requires
        i32::MIN <= client.right - client.left <= i32::MAX,
        i32::MIN <= client.bottom - client.top <= i32::MAX,
    ensures
        ({
            let w = (client.right - client.left) as u32;
            let h = (client.bottom - client.top) as u32;
            match size {
                Some((width, height)) => width == w && height == h && w != 0 && h != 0,
                None => w == 0 || h == 0,
            }
        }),
        client.left <= client.right && client.top <= client.bottom ==> match size {
            Some((width, height)) => width == client.right - client.left && height == client.bottom - client.top,
            None => client.left == client.right || client.top == client.bottom,
        },
{
    let dx = client.right - client.left;
    let dy = client.bottom - client.top;
    let width = #[verifier::truncate] (dx as u32);
    let height = #[verifier::truncate] (dy as u32);
    if width == 0 || height == 0 {
        None
    } else {
        Some((width, height))
    }
}

/// What to do with the render target before drawing at a given size.
#[derive(Debug, Clone, Copy, PartialEq, Eq, Structural)]
pub enum RenderTargetAction {
    /// There is none yet: create one of the size.
    Create,
    /// There is one of another size: resize it.
    Resize,
    /// There is one of this size already: draw on it.
    Keep,
}

/// Decides between creating, resizing and reusing the render target, from
/// the pixel size of the current one (if any) and the size to draw at.
pub fn render_target_action(current: Option<(u32, u32)>, width: u32, height: u32) -> (action: RenderTargetAction)
    ensures
        action == match current {
            None => RenderTargetAction::Create,
            Some((w, h)) => if w != width || h != height {
                RenderTargetAction::Resize
            } else {
                RenderTargetAction::Keep
            },
        },
{
    match current {
        None => RenderTargetAction::Create,
        Some((w, h)) => {
            if w != width || h != height {
                RenderTargetAction::Resize
            } else {
                RenderTargetAction::Keep
            }
        }
    }
}

} // verus!
