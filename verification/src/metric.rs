use vstd::prelude::*;

verus! {

#[derive(Debug, Clone, Copy, PartialEq, Eq, Structural, Hash)]
pub enum CpuMetric {
    Usage,
    Frequency,
}

#[derive(Debug, Clone, Copy, PartialEq, Eq, Structural, Hash)]
pub enum GpuMetric {
    Usage,
    Temperature,
    Frequency,
}

#[derive(Debug, Clone, Copy, PartialEq, Eq, Structural, Hash)]
pub enum MemoryMetric {
    Used,
    Free,
    Usage,
}

/// Names one reading that a monitor publishes.
#[derive(Debug, Clone, Copy, PartialEq, Eq, Structural, Hash)]
pub enum MetricKind {
    Cpu(CpuMetric),
    Gpu(GpuMetric),
    Ram(MemoryMetric),
    Vram(MemoryMetric),
}

/// The metrics a monitor publishes, each under its kind; registering a kind
/// a second time replaces what it held.
pub struct MetricSet<M> {
    kinds: Vec<MetricKind>,
    metrics: Vec<M>,
}

impl<M> MetricSet<M> {
    /// Every kind is stored once, beside its metric.
    pub closed spec fn well_formed(&self) -> bool {
        &&& self.kinds.len() == self.metrics.len()
        &&& forall|i: int, j: int|
            0 <= i < j < self.kinds.len() ==> self.kinds[i] != self.kinds[j]
    }
}

impl<M> View for MetricSet<M> {
    type V = Map<MetricKind, M>;

    closed spec fn view(&self) -> Map<MetricKind, M> {
        Map::new(
            |k: MetricKind| self.kinds@.contains(k),
            |k: MetricKind| self.metrics@[self.kinds@.index_of(k)],
        )
    }
}

/// In a sequence without repeats, the index of the item at `i` is `i`.
proof fn lemma_index_of_unique(s: Seq<MetricKind>, i: int)
    requires
        0 <= i < s.len(),
        forall|a: int, b: int| 0 <= a < b < s.len() ==> s[a] != s[b],
    ensures
        s.index_of(s[i]) == i,
{
    assert(s.contains(s[i]));
    let j = s.index_of(s[i]);
    assert(0 <= j < s.len() && s[j] == s[i]);
    if j < i {
        assert(s[j] != s[i]);
    } else if i < j {
        assert(s[i] != s[j]);
    }
}

impl<M> MetricSet<M> {
    /// The metric stored at slot `i` is what the view holds for its kind.
    proof fn lemma_entry(&self, i: int)
        requires
            self.well_formed(),
            0 <= i < self.kinds.len(),
        ensures
            self@.contains_key(self.kinds@[i]),
            self@[self.kinds@[i]] == self.metrics@[i],
    {
        assert(self.kinds@.contains(self.kinds@[i]));
        lemma_index_of_unique(self.kinds@, i);
    }

    pub fn new() -> (s: Self)
        ensures
            s.well_formed(),
            s@ == Map::<MetricKind, M>::empty(),
    {
        let s = Self { kinds: Vec::new(), metrics: Vec::new() };
        assert(s@ =~= Map::<MetricKind, M>::empty());
        s
    }

    /// Where `kind` is stored, if it is.
    fn position(&self, kind: MetricKind) -> (r: Option<usize>)
        requires
            self.well_formed(),
        ensures
            match r {
                Some(i) => i < self.kinds.len() && self.kinds@[i as int] == kind,
                None => !self.kinds@.contains(kind),
            },
    {
        let mut i: usize = 0;
        while i < self.kinds.len()
            invariant
                i <= self.kinds.len(),
                forall|j: int| 0 <= j < i ==> self.kinds@[j] != kind,
            decreases self.kinds.len() - i,
        {
            if self.kinds[i] == kind {
                return Some(i);
            }
            i = i + 1;
        }
        None
    }

    pub fn register(&mut self, metric_kind: MetricKind, metric: M)
        requires
            old(self).well_formed(),
        ensures
            final(self).well_formed(),
            final(self)@ == old(self)@.insert(metric_kind, metric),
    {
        let ghost before = *old(self);
        match self.position(metric_kind) {
            Some(i) => {
                self.metrics.set(i, metric);
                proof {
                    assert forall|k: MetricKind| #[trigger] self@.contains_key(k) implies
                        self@[k] == before@.insert(metric_kind, metric)[k] by {
                        let j = self.kinds@.index_of(k);
                        assert(self.kinds@.contains(k));
                        assert(0 <= j < self.kinds.len() && self.kinds@[j] == k);
                        self.lemma_entry(j);
                        before.lemma_entry(j);
                    }
                    assert(self@ =~= before@.insert(metric_kind, metric));
                }
            }
            None => {
                self.kinds.push(metric_kind);
                self.metrics.push(metric);
                proof {
                    let n = before.kinds.len() as int;
                    assert(self.kinds@[n] == metric_kind);
                    self.lemma_entry(n);
                    assert forall|k: MetricKind| before@.contains_key(k) implies
                        #[trigger] self@.contains_key(k) && self@[k] == before@[k] by {
                        let j = before.kinds@.index_of(k);
                        assert(before.kinds@.contains(k));
                        assert(0 <= j < n && before.kinds@[j] == k);
                        assert(self.kinds@[j] == k);
                        self.lemma_entry(j);
                        before.lemma_entry(j);
                    }
                    assert forall|k: MetricKind| #[trigger] self@.contains_key(k) implies
                        k == metric_kind || before@.contains_key(k) by {
                        let j = self.kinds@.index_of(k);
                        assert(self.kinds@.contains(k));
                        if j < n {
                            assert(before.kinds@[j] == k);
                            assert(before.kinds@.contains(k));
                        }
                    }
                    assert(self@ =~= before@.insert(metric_kind, metric));
                }
            }
        }
    }

    pub fn get(&self, metric_kind: MetricKind) -> (r: Option<&M>)
        requires
            self.well_formed(),
        ensures
            match r {
                Some(m) => self@.contains_key(metric_kind) && *m == self@[metric_kind],
                None => !self@.contains_key(metric_kind),
            },
    {
        match self.position(metric_kind) {
            Some(i) => {
                proof { self.lemma_entry(i as int); }
                Some(&self.metrics[i])
            }
            None => None,
        }
    }

    /// The metric registered under `metric_kind`, for changing it in place.
    pub fn get_mut(&mut self, metric_kind: MetricKind) -> (r: &mut M)
        requires
            old(self).well_formed(),
            old(self)@.contains_key(metric_kind),
        ensures
            *r == old(self)@[metric_kind],
            final(self).well_formed(),
            final(self)@ == old(self)@.insert(metric_kind, *final(r)),
    {
        let ghost before = *old(self);
        let i = match self.position(metric_kind) {
            Some(i) => i,
            None => {
                proof {
                    assert(self.kinds@.contains(metric_kind));
                }
                0
            }
        };
        proof { self.lemma_entry(i as int); }
        &mut self.metrics[i]
    }
}

impl<M> Default for MetricSet<M> {
    fn default() -> (s: Self)
        ensures
            s.well_formed(),
            s@ == Map::<MetricKind, M>::empty(),
    {
        Self::new()
    }
}

/// After `register(metric_kind, metric)` a `get` of that kind gives back
/// `metric`, whatever the set held for it before, and every other kind reads
/// as it did.
pub proof fn lemma_register_then_get<M>(before: Map<MetricKind, M>, after: Map<MetricKind, M>, metric_kind: MetricKind, metric: M, other: MetricKind)
    requires
        after == before.insert(metric_kind, metric),
    ensures
        after.contains_key(metric_kind),
        after[metric_kind] == metric,
        other != metric_kind ==> (after.contains_key(other) == before.contains_key(other)),
        other != metric_kind && before.contains_key(other) ==> after[other] == before[other],
{
}

/// The metric that the first of `sets` registering `metric_kind` holds for it.
pub fn find_metric<'a, M>(sets: &Vec<&'a MetricSet<M>>, metric_kind: MetricKind) -> (r: Option<&'a M>)
    requires
        forall|i: int| 0 <= i < sets.len() ==> #[trigger] sets@[i].well_formed(),
    ensures
        match r {
            Some(m) => exists|i: int|
                0 <= i < sets.len()
                && (#[trigger] sets@[i])@.contains_key(metric_kind)
                && *m == sets@[i]@[metric_kind]
                && forall|j: int| 0 <= j < i ==> !(#[trigger] sets@[j])@.contains_key(metric_kind),
            None => forall|i: int| 0 <= i < sets.len() ==> !(#[trigger] sets@[i])@.contains_key(metric_kind),
        },
{
    let mut i: usize = 0;
    while i < sets.len()
        invariant
            i <= sets.len(),
            forall|k: int| 0 <= k < sets.len() ==> #[trigger] sets@[k].well_formed(),
            forall|j: int| 0 <= j < i ==> !(#[trigger] sets@[j])@.contains_key(metric_kind),
        decreases sets.len() - i,
    {
        let set: &MetricSet<M> = sets[i];
        match set.get(metric_kind) {
            Some(m) => {
                assert(sets@[i as int]@.contains_key(metric_kind));
                return Some(m);
            }
            None => {}
        }
        i = i + 1;
    }
    None
}

} // verus!
