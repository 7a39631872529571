use crate::metric::MetricKind;
use crate::util::{pushed, BoundedQueue};
use vstd::prelude::*;

verus! {

/// Shows one graphics-card metric as text; its width follows the text it
/// last drew and starts as that of a text widget.
pub struct GpuTextWidget {
    metric: MetricKind,
    width: u16,
}

impl GpuTextWidget {
    pub closed spec fn spec_metric(&self) -> MetricKind {
        self.metric
    }

    pub closed spec fn spec_width(&self) -> u16 {
        self.width
    }

    pub fn new(metric: MetricKind) -> (w: Box<Self>)
        ensures
            w.spec_metric() == metric,
            w.spec_width() == 30,
    {
        Box::new(Self { metric, width: 30 })
    }

    pub fn metric(&self) -> (m: MetricKind)
        ensures
            m == self.spec_metric(),
    {
        self.metric
    }

    pub fn width(&self) -> (w: u16)
        ensures
            w == self.spec_width(),
    {
        self.width
    }

    /// Records the width of the text just drawn.
    pub fn set_width(&mut self, width: u16)
        ensures
            final(self).spec_width() == width,
            final(self).spec_metric() == old(self).spec_metric(),
    {
        self.width = width;
    }
}

/// Plots the recent readings of one graphics-card metric in a fixed width,
/// keeping as many readings as it is pixels wide.
pub struct GpuGraphWidget<S> {
    metric: MetricKind,
    width: u16,
    values: BoundedQueue<S>,
}

impl<S> GpuGraphWidget<S> {
    pub closed spec fn spec_metric(&self) -> MetricKind {
        self.metric
    }

    pub closed spec fn spec_width(&self) -> u16 {
        self.width
    }

    /// The queue of readings is as long as the widget is wide.
    pub closed spec fn well_formed(&self) -> bool {
        self.values.spec_capacity() == self.width as nat
    }

    /// The readings kept, oldest first.
    pub closed spec fn spec_values(&self) -> Seq<S> {
        self.values@
    }

    pub fn new(metric: MetricKind, width: u16) -> (w: Self)
        ensures
            w.spec_metric() == metric,
            w.spec_width() == width,
            w.spec_values() == Seq::<S>::empty(),
            w.well_formed(),
    {
        Self { metric, width, values: BoundedQueue::new(width as usize) }
    }

    pub fn metric(&self) -> (m: MetricKind)
        ensures
            m == self.spec_metric(),
    {
        self.metric
    }

    pub fn width(&self) -> (w: u16)
        ensures
            w == self.spec_width(),
    {
        self.width
    }

    /// Records a new reading, dropping the oldest once there are as many as
    /// the widget is wide.
    pub fn push(&mut self, value: S)
        requires
            old(self).well_formed(),
        ensures
            final(self).well_formed(),
            final(self).spec_values() == pushed(old(self).spec_values(), old(self).spec_width() as nat, value),
            final(self).spec_width() == old(self).spec_width(),
            final(self).spec_metric() == old(self).spec_metric(),
    {
        self.values.push(value);
    }

    pub fn values(&self) -> (q: &BoundedQueue<S>)
        requires
            self.well_formed(),
        ensures
            q@ == self.spec_values(),
            q.spec_capacity() == self.spec_width(),
    {
        &self.values
    }
}

} // verus!
