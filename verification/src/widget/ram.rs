use vstd::prelude::*;

verus! {

/// Shows the memory reading as text; its width follows the text it last
/// drew.
pub struct RamWidget {
    width: u16,
}

impl RamWidget {
    pub closed spec fn spec_width(&self) -> u16 {
        self.width
    }

    pub fn new() -> (w: Box<Self>)
        ensures
            w.spec_width() == 70,
    {
        let width: u16 = 70;
        Box::new(Self { width })
    }

    pub fn width(&self) -> (w: u16)
        ensures
            w == self.spec_width(),
    {
        self.width
    }

    /// Records the width of the text just drawn.
    pub fn set_width(&mut self, width: u16)
        ensures
            final(self).spec_width() == width,
    {
        self.width = width;
    }
}

} // verus!
