use crate::metric::MetricKind;
use vstd::prelude::*;

verus! {

/// Shows a title above the formatted value of one metric; its width follows
/// the text it last drew.
pub struct TextWidget {
    title: String,
    metric: MetricKind,
    width: u16,
}

impl TextWidget {
    pub closed spec fn spec_title(&self) -> Seq<char> {
        self.title@
    }

    pub closed spec fn spec_metric(&self) -> MetricKind {
        self.metric
    }

    pub closed spec fn spec_width(&self) -> u16 {
        self.width
    }

    pub fn new(title: &str, metric: MetricKind) -> (w: Self)
        ensures
            w.spec_title() == title@,
            w.spec_metric() == metric,
            w.spec_width() == 30,
    {
        Self { title: title.to_owned(), metric, width: 30 }
    }

    pub fn title(&self) -> (t: &str)
        ensures
            t@ == self.spec_title(),
    {
        self.title.as_str()
    }

    pub fn metric(&self) -> (m: MetricKind)
        ensures
            m == self.spec_metric(),
    {
        self.metric
    }

    pub fn width(&self) -> (w: u16)
        ensures
            w == self.spec_width(),
    {
        self.width
    }

    /// Records the width of the text just drawn.
    pub fn set_width(&mut self, width: u16)
        ensures
            final(self).spec_width() == width,
            final(self).spec_title() == old(self).spec_title(),
            final(self).spec_metric() == old(self).spec_metric(),
    {
        self.width = width;
    }
}

} // verus!
