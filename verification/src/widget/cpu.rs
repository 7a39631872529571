use vstd::prelude::*;

verus! {

/// Shows the processor reading as text, in a fixed width.
pub struct CpuWidget {
    width: u16,
}

impl CpuWidget {
    pub closed spec fn spec_width(&self) -> u16 {
        self.width
    }

    pub fn new() -> (w: Box<Self>)
        ensures
            w.spec_width() == 35,
    {
        let width: u16 = 35;
        Box::new(Self { width })
    }

    pub fn width(&self) -> (w: u16)
        ensures
            w == self.spec_width(),
    {
        self.width
    }
}

} // verus!
