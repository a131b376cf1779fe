//! The history buffer: the most recent samples, oldest first, never more
//! than a fixed number of them.
//!
//! A sample does not change once it is taken, so the buffer and its readers
//! share it by reference count: storing and handing out a sample copies a
//! pointer, whatever the size of the sample.

use std::collections::VecDeque;
use std::sync::Arc;
use vstd::prelude::*;
use crate::handle::share;
use crate::monitor::DetailedMetrics;
use crate::monitor::DetailedMetricsView;

verus! {

/// Number of samples a history keeps unless told otherwise.
pub const HISTORY_SIZE: usize = 100;

/// What a buffer of `capacity` places holds once `item` is pushed onto
/// `held`: the item goes last, and where there is no free place the oldest
/// items leave to make one.
pub open spec fn push_bounded<A>(held: Seq<A>, capacity: nat, item: A) -> Seq<A> {
    if capacity == 0 {
        Seq::empty()
    } else if held.len() >= capacity {
        held.skip(held.len() - capacity + 1).push(item)
    } else {
        held.push(item)
    }
}

/// What a buffer holds once every item of `items` is pushed in turn.
pub open spec fn push_all<A>(held: Seq<A>, capacity: nat, items: Seq<A>) -> Seq<A>
    decreases items.len(),
{
    if items.len() == 0 {
        held
    } else {
        push_bounded(push_all(held, capacity, items.drop_last()), capacity, items.last())
    }
}

/// The last `count` items of `items`, or all of them where there are fewer.
pub open spec fn newest<A>(items: Seq<A>, count: nat) -> Seq<A> {
    if items.len() <= count {
        items
    } else {
        items.skip(items.len() - count)
    }
}

/// The smaller of two counts.
pub open spec fn smaller(a: nat, b: nat) -> nat {
    if a <= b {
        a
    } else {
        b
    }
}

/// A push never leaves more than `capacity` items, and fills a free place
/// where there is one.
pub proof fn lemma_push_bounded_len<A>(held: Seq<A>, capacity: nat, item: A)
    requires
        held.len() <= capacity,
    ensures
        push_bounded(held, capacity, item).len() == smaller(capacity, held.len() + 1),
{
}

/// Whatever was pushed, and however often, an empty buffer ends up holding
/// the newest items, in the order in which they were pushed, and as many of
/// them as fit.
pub proof fn lemma_pushes_keep_newest<A>(capacity: nat, items: Seq<A>)
    ensures
        push_all(Seq::<A>::empty(), capacity, items) == newest(items, capacity),
        push_all(Seq::<A>::empty(), capacity, items).len() == smaller(capacity, items.len()),
    decreases items.len(),
{
    if items.len() == 0 {
        assert(push_all(Seq::<A>::empty(), capacity, items) =~= newest(items, capacity));
    } else {
        let before = items.drop_last();
        lemma_pushes_keep_newest(capacity, before);
        let held = push_all(Seq::<A>::empty(), capacity, before);
        assert(held == newest(before, capacity));
        assert(push_bounded(held, capacity, items.last()) =~= newest(items, capacity));
    }
}

/// The length of a history never exceeds its capacity, and equals it once
/// at least that many samples were pushed.
pub proof fn lemma_capacity_bound<A>(capacity: nat, items: Seq<A>)
    ensures
        push_all(Seq::<A>::empty(), capacity, items).len() <= capacity,
        items.len() >= capacity ==> push_all(Seq::<A>::empty(), capacity, items).len()
            == capacity,
{
    lemma_pushes_keep_newest(capacity, items);
}

/// Pushing one item more than fits evicts the first one pushed and nothing
/// else: the buffer holds the second to the last, in the order of pushing.
pub proof fn lemma_first_in_first_out<A>(capacity: nat, items: Seq<A>)
    requires
        items.len() == capacity + 1,
    ensures
        push_all(Seq::<A>::empty(), capacity, items) == items.skip(1),
{
    lemma_pushes_keep_newest(capacity, items);
}

/// The samples of a sequence, each as the mathematical value it holds.
pub open spec fn sample_views(samples: Seq<Arc<DetailedMetrics>>) -> Seq<DetailedMetricsView> {
    samples.map_values(|sample: Arc<DetailedMetrics>| sample@)
}

/// A bounded, insertion-ordered buffer of samples.
pub struct HistoryBuffer {
    samples: VecDeque<Arc<DetailedMetrics>>,
    capacity: usize,
}

impl View for HistoryBuffer {
    type V = Seq<DetailedMetricsView>;

    /// The samples held, oldest first.
    closed spec fn view(&self) -> Seq<DetailedMetricsView> {
        sample_views(self.samples@)
    }
}

impl HistoryBuffer {
    /// The number of samples the buffer keeps at most.
    pub closed spec fn spec_capacity(&self) -> nat {
        self.capacity as nat
    }

    /// The buffer holds no more than its capacity. This holds of every
    /// buffer that a program has in hand.
    #[verifier::type_invariant]
    pub closed spec fn wf(&self) -> bool {
        self.samples@.len() <= self.capacity
    }

    /// A well-formed buffer is within its capacity.
    pub proof fn lemma_wf_bound(&self)
        requires
            self.wf(),
        ensures
            self@.len() <= self.spec_capacity(),
    {
    }

    /// An empty buffer of [`HISTORY_SIZE`] places.
    pub fn new() -> (buffer: Self)
        ensures
            buffer@ == Seq::<DetailedMetricsView>::empty(),
            buffer.spec_capacity() == HISTORY_SIZE,
    {
        let buffer = HistoryBuffer {
            samples: VecDeque::with_capacity(HISTORY_SIZE),
            capacity: HISTORY_SIZE,
        };
        assert(buffer@ =~= Seq::<DetailedMetricsView>::empty());
        buffer
    }

    /// An empty buffer of `capacity` places.
    pub fn with_capacity(capacity: usize) -> (buffer: Self)
        ensures
            buffer@ == Seq::<DetailedMetricsView>::empty(),
            buffer.spec_capacity() == capacity,
    {
        let buffer = HistoryBuffer { samples: VecDeque::new(), capacity };
        assert(buffer@ =~= Seq::<DetailedMetricsView>::empty());
        buffer
    }

    /// The number of samples the buffer keeps at most.
    pub fn capacity(&self) -> (capacity: usize)
        ensures
            capacity == self.spec_capacity(),
    {
        self.capacity
    }

    /// The number of samples held.
    pub fn len(&self) -> (len: usize)
        ensures
            len == self@.len(),
            len <= self.spec_capacity(),
    {
        proof {
            use_type_invariant(self);
        }
        broadcast use vstd::std_specs::vecdeque::group_vec_dequeue_axioms;

        self.samples.len()
    }

    /// Whether no sample is held.
    pub fn is_empty(&self) -> (empty: bool)
        ensures
            empty == (self@.len() == 0),
    {
        self.len() == 0
    }

    /// Appends `sample` as the newest. A full buffer first drops its oldest
    /// sample; the buffer never grows past its capacity.
    pub fn push(&mut self, sample: Arc<DetailedMetrics>)
        ensures
            final(self).spec_capacity() == old(self).spec_capacity(),
            final(self)@ == push_bounded(old(self)@, old(self).spec_capacity(), sample@),
    {
        broadcast use vstd::std_specs::vecdeque::group_vec_dequeue_axioms;

        proof {
            use_type_invariant(&*self);
        }
        if self.capacity == 0 {
            assert(self@ =~= Seq::<DetailedMetricsView>::empty());
            return ;
        }
        // The queue is taken out, changed and put back, so that the buffer
        // is within its capacity at every point.
        let mut samples: VecDeque<Arc<DetailedMetrics>> = VecDeque::new();
        std::mem::swap(&mut self.samples, &mut samples);
        if samples.len() >= self.capacity {
            let _ = samples.pop_front();
        }
        samples.push_back(sample);
        self.samples = samples;
        assert(self@ =~= push_bounded(old(self)@, old(self).spec_capacity(), sample@));
    }

    /// The newest sample, if any.
    pub fn newest_sample(&self) -> (newest: Option<&Arc<DetailedMetrics>>)
        ensures
            match newest {
                Some(sample) => self@.len() > 0 && sample@ == self@.last(),
                None => self@.len() == 0,
            },
    {
        broadcast use vstd::std_specs::vecdeque::group_vec_dequeue_axioms;

        let len = self.samples.len();
        if len == 0 {
            None
        } else {
            Some(&self.samples[len - 1])
        }
    }

    /// The samples held, oldest first, in a list of its own: later pushes
    /// do not show in it.
    pub fn snapshot(&self) -> (copy: Vec<Arc<DetailedMetrics>>)
        ensures
            copy.deep_view() == self@,
    {
        broadcast use vstd::std_specs::vecdeque::group_vec_dequeue_axioms;

        let mut copy: Vec<Arc<DetailedMetrics>> = Vec::new();
        let mut i: usize = 0;
        while i < self.samples.len()
            invariant
                i <= self.samples@.len(),
                copy@.len() == i,
                forall|j: int| 0 <= j < i ==> (#[trigger] copy@[j])@ == self.samples@[j]@,
            decreases self.samples@.len() - i,
        {
            copy.push(share(&self.samples[i]));
            i = i + 1;
        }
        assert(copy.deep_view() =~= self@);
        copy
    }
}

} // verus!
