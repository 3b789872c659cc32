//! The rolling history of latency samples, most recent first.
use std::collections::VecDeque;
use vstd::prelude::*;

verus! {

/// The window after `s` is inserted at the front of `w`, keeping at most
/// `capacity` entries: the oldest entry leaves once the window is full.
pub open spec fn window_push(w: Seq<Option<u64>>, s: Option<u64>, capacity: nat) -> Seq<
    Option<u64>,
> {
    let pushed = seq![s] + w;
    if pushed.len() > capacity {
        pushed.take(capacity as int)
    } else {
        pushed
    }
}

/// The window of the given capacity after the samples `xs` were inserted into
/// an empty one, `xs[0]` first.
pub open spec fn window_after(capacity: nat, xs: Seq<Option<u64>>) -> Seq<Option<u64>>
    decreases xs.len(),
{
    if xs.len() == 0 {
        Seq::empty()
    } else {
        window_push(window_after(capacity, xs.drop_last()), xs.last(), capacity)
    }
}

/// A fixed-capacity FIFO of latency samples; `None` is a probe without a response.
pub struct SampleWindow {
    samples: VecDeque<Option<u64>>,
    capacity: usize,
}

impl View for SampleWindow {
    type V = Seq<Option<u64>>;

    /// The entries, most recent first.
    closed spec fn view(&self) -> Seq<Option<u64>> {
        self.samples@
    }
}

impl SampleWindow {
    /// The most entries that the window holds.
    pub closed spec fn capacity_spec(&self) -> nat {
        self.capacity as nat
    }

    /// The window never holds more than its capacity.
    pub closed spec fn wf(&self) -> bool {
        self.samples@.len() <= self.capacity
    }

    /// An empty window that keeps the `capacity` most recent samples.
    pub fn new(capacity: usize) -> (r: SampleWindow)
        ensures
            r.wf(),
            r@ == Seq::<Option<u64>>::empty(),
            r.capacity_spec() == capacity,
    {
        SampleWindow { samples: VecDeque::new(), capacity }
    }

    /// The most entries that the window holds.
    pub fn capacity(&self) -> (r: usize)
        ensures
            r == self.capacity_spec(),
    {
        self.capacity
    }

    /// The number of entries now held.
    pub fn len(&self) -> (r: usize)
        requires
            self.wf(),
        ensures
            r == self@.len(),
    {
        self.samples.len()
    }

    /// Inserts a sample as the most recent entry, evicting the oldest one if the
    /// window was full.
    pub fn push_front(&mut self, sample: Option<u64>)
        requires
            old(self).wf(),
        ensures
            final(self).wf(),
            final(self).capacity_spec() == old(self).capacity_spec(),
            final(self)@ == window_push(old(self)@, sample, old(self).capacity_spec()),
    {
        self.samples.push_front(sample);
        if self.samples.len() > self.capacity {
            self.samples.pop_back();
        }
        assert(self.samples@ =~= window_push(old(self)@, sample, self.capacity as nat));
    }

    /// The current entries, most recent first.
    pub fn snapshot(&self) -> (r: Vec<Option<u64>>)
        requires
            self.wf(),
        ensures
            r@ == self@,
    {
        let mut out: Vec<Option<u64>> = Vec::new();
        let n: usize = self.samples.len();
        let mut i: usize = 0;
        while i < n
            invariant
                n == self.samples@.len(),
                i <= n,
                out@ == self.samples@.take(i as int),
            decreases n - i,
        {
            out.push(self.samples[i]);
            i = i + 1;
            assert(out@ =~= self.samples@.take(i as int));
        }
        assert(out@ =~= self.samples@);
        out
    }
}

/// After any number of insertions into a window of capacity `capacity`, it
/// holds as many entries as were inserted, but never more than its capacity,
/// and its first entry is the sample inserted last.
pub proof fn lemma_window_size(capacity: nat, xs: Seq<Option<u64>>)
    ensures
        window_after(capacity, xs).len() == if xs.len() < capacity {
            xs.len()
        } else {
            capacity
        },
        xs.len() > 0 && capacity > 0 ==> window_after(capacity, xs)[0] == xs.last(),
    decreases xs.len(),
{
    if xs.len() > 0 {
        lemma_window_size(capacity, xs.drop_last());
    }
}

/// The window is a strict FIFO: its entry `i` is the sample inserted `i`
/// insertions before the last one.
pub proof fn lemma_window_order(capacity: nat, xs: Seq<Option<u64>>)
    ensures
        forall|i: int|
            0 <= i < window_after(capacity, xs).len() ==> #[trigger] window_after(capacity, xs)[i]
                == xs[xs.len() - 1 - i],
    decreases xs.len(),
{
    lemma_window_size(capacity, xs);
    if xs.len() > 0 {
        let prev = xs.drop_last();
        lemma_window_order(capacity, prev);
        lemma_window_size(capacity, prev);
        let w = window_after(capacity, xs);
        assert forall|i: int| 0 <= i < w.len() implies #[trigger] w[i] == xs[xs.len() - 1 - i] by {
            if i > 0 {
                assert(w[i] == window_after(capacity, prev)[i - 1]);
            }
        }
    }
}

/// Inserting `capacity + 1` samples into a window of that capacity leaves the
/// last `capacity` of them, most recent first: the first sample is evicted.
pub proof fn lemma_window_evicts_oldest(capacity: nat, xs: Seq<Option<u64>>)
    requires
        xs.len() == capacity + 1,
    ensures
        window_after(capacity, xs) == Seq::new(capacity, |i: int| xs[capacity - i]),
{
    lemma_window_size(capacity, xs);
    lemma_window_order(capacity, xs);
    assert(window_after(capacity, xs) =~= Seq::new(capacity, |i: int| xs[capacity - i]));
}

} // verus!
