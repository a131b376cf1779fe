//! The shared state: the latest sample and the history, kept consistent
//! with each other, and the step that one tick of the sampling loop takes.
//!
//! The state is a plain value; the store of the module `store` puts it
//! behind a lock. Samples are shared by reference count, so an update moves
//! a few pointers and a read copies as many pointers as the history is
//! long.

use std::sync::Arc;
use vstd::prelude::*;
use vstd::string::*;
use crate::alert::fired_rules;
use crate::alert::reports_rule;
use crate::alert::AlertManager;
use crate::alert::FiredAlert;
use crate::alert::Notifier;
use crate::error::CollectionError;
use crate::error::MonitorError;
use crate::handle::share;
use crate::history::lemma_pushes_keep_newest;
use crate::history::push_all;
use crate::history::push_bounded;
use crate::history::HistoryBuffer;
use crate::history::HISTORY_SIZE;
use crate::monitor::DetailedMetrics;
use crate::monitor::DetailedMetricsView;

verus! {

/// The latest sample is the newest of the history, and there is the one
/// exactly when there is the other.
pub open spec fn consistent(
    latest: Option<DetailedMetricsView>,
    history: Seq<DetailedMetricsView>,
) -> bool {
    match latest {
        Some(sample) => history.len() > 0 && history.last() == sample,
        None => history.len() == 0,
    }
}

/// However many samples were stored one after the other, the one stored
/// last is the newest of the history: a reader is never handed a latest
/// sample that the history does not end with.
pub proof fn lemma_latest_is_newest(capacity: nat, samples: Seq<DetailedMetricsView>)
    requires
        capacity >= 1,
        samples.len() > 0,
    ensures
        consistent(
            Some(samples.last()),
            push_all(Seq::<DetailedMetricsView>::empty(), capacity, samples),
        ),
{
    lemma_pushes_keep_newest(capacity, samples);
}

/// The latest sample and the history of samples.
pub struct AppState {
    latest: Option<Arc<DetailedMetrics>>,
    metrics_history: HistoryBuffer,
}

impl AppState {
    /// The latest sample, if one was ever stored.
    pub closed spec fn latest(&self) -> Option<DetailedMetricsView> {
        match self.latest {
            Some(sample) => Some(sample@),
            None => None,
        }
    }

    /// The history, oldest sample first.
    pub closed spec fn history(&self) -> Seq<DetailedMetricsView> {
        self.metrics_history@
    }

    /// The number of samples the history keeps at most.
    pub closed spec fn capacity(&self) -> nat {
        self.metrics_history.spec_capacity()
    }

    /// The history has at least one place and is within its capacity, and
    /// the latest sample is its newest. This holds of every state that a
    /// program has in hand.
    #[verifier::type_invariant]
    pub closed spec fn wf(&self) -> bool {
        &&& self.metrics_history.wf()
        &&& self.metrics_history.spec_capacity() >= 1
        &&& consistent(self.latest(), self.history())
    }

    /// In a well-formed state the latest sample is the newest of the
    /// history, and the history is within its capacity.
    pub proof fn lemma_wf_consistent(&self)
        requires
            self.wf(),
        ensures
            consistent(self.latest(), self.history()),
            self.history().len() <= self.capacity(),
            self.capacity() >= 1,
    {
        self.metrics_history.lemma_wf_bound();
    }

    /// A state without samples, with a history of [`HISTORY_SIZE`] places.
    pub fn new() -> (state: Self)
        ensures
            state.latest() is None,
            state.history() == Seq::<DetailedMetricsView>::empty(),
            state.capacity() == HISTORY_SIZE,
    {
        let history = HistoryBuffer::new();
        proof {
            use_type_invariant(&history);
        }
        AppState { latest: None, metrics_history: history }
    }

    /// A state without samples, with a history of `capacity` places. A
    /// history without any place could not hold the latest sample, so a
    /// capacity of zero is refused.
    pub fn with_capacity(capacity: usize) -> (made: Result<Self, MonitorError>)
        ensures
            match made {
                Ok(state) => {
                    &&& capacity >= 1
                    &&& state.latest() is None
                    &&& state.history() == Seq::<DetailedMetricsView>::empty()
                    &&& state.capacity() == capacity
                },
                Err(error) => {
                    &&& capacity == 0
                    &&& error matches MonitorError::Config(cause)
                    &&& cause@ == "history capacity must be at least 1"@
                },
            },
    {
        if capacity == 0 {
            Err(MonitorError::Config(String::from_str("history capacity must be at least 1")))
        } else {
            let history = HistoryBuffer::with_capacity(capacity);
            proof {
                use_type_invariant(&history);
            }
            Ok(AppState { latest: None, metrics_history: history })
        }
    }

    /// Stores `sample`: it becomes the latest sample and the newest of the
    /// history, from which the oldest sample leaves if there is no free
    /// place.
    pub fn update(&mut self, sample: Arc<DetailedMetrics>)
        ensures
            final(self).capacity() == old(self).capacity(),
            final(self).latest() == Some(sample@),
            final(self).history() == push_bounded(
                old(self).history(),
                old(self).capacity(),
                sample@,
            ),
            consistent(final(self).latest(), final(self).history()),
    {
        // Latest sample and history change in one assignment, so that the
        // state is consistent at every point: the state is taken out, what
        // will be the new one is built, and that is put in its place.
        let placeholder = HistoryBuffer::with_capacity(1);
        proof {
            use_type_invariant(&placeholder);
        }
        let mut taken = AppState { latest: None, metrics_history: placeholder };
        std::mem::swap(self, &mut taken);
        proof {
            use_type_invariant(&taken);
        }
        let AppState { latest: _, metrics_history: mut history } = taken;
        let latest = share(&sample);
        history.push(sample);
        proof {
            use_type_invariant(&history);
        }
        *self = AppState { latest: Some(latest), metrics_history: history };
        proof {
            use_type_invariant(&*self);
        }
    }

    /// Takes in what a collection came to. A collected sample is stored and
    /// handed back for the steps that follow. A failed collection changes
    /// nothing: the latest sample and the history stay as they were, and
    /// the failure is handed back.
    pub fn record(&mut self, collected: Result<DetailedMetrics, CollectionError>) -> (stored: Result<
        Arc<DetailedMetrics>,
        CollectionError,
    >)
        ensures
            final(self).capacity() == old(self).capacity(),
            consistent(final(self).latest(), final(self).history()),
            match collected {
                Ok(sample) => {
                    &&& final(self).latest() == Some(sample@)
                    &&& final(self).history() == push_bounded(
                        old(self).history(),
                        old(self).capacity(),
                        sample@,
                    )
                    &&& stored matches Ok(handle)
                    &&& *handle == sample
                },
                Err(error) => {
                    &&& final(self).latest() == old(self).latest()
                    &&& final(self).history() == old(self).history()
                    &&& stored == Err::<Arc<DetailedMetrics>, CollectionError>(error)
                },
            },
    {
        match collected {
            Ok(sample) => {
                let handle = Arc::new(sample);
                self.update(share(&handle));
                Ok(handle)
            },
            Err(error) => {
                proof {
                    use_type_invariant(&*self);
                }
                Err(error)
            },
        }
    }

    /// The latest sample, if one was ever stored.
    pub fn latest_ref(&self) -> (latest: Option<&Arc<DetailedMetrics>>)
        ensures
            match latest {
                Some(sample) => self.latest() == Some(sample@),
                None => self.latest() is None,
            },
    {
        self.latest.as_ref()
    }

    /// The number of samples in the history.
    pub fn history_len(&self) -> (len: usize)
        ensures
            len == self.history().len(),
    {
        self.metrics_history.len()
    }

    /// The history, oldest sample first, in a list of its own.
    pub fn history_snapshot(&self) -> (copy: Vec<Arc<DetailedMetrics>>)
        ensures
            copy.deep_view() == self.history(),
    {
        self.metrics_history.snapshot()
    }

    /// The latest sample and the history as they stand together: the latest
    /// sample is the newest of the returned history. Later updates do not
    /// show in what is returned. Nothing is returned before the first
    /// sample is stored.
    pub fn read(&self) -> (pair: Option<(Arc<DetailedMetrics>, Vec<Arc<DetailedMetrics>>)>)
        ensures
            match pair {
                Some((latest, history)) => {
                    &&& self.latest() == Some(latest@)
                    &&& history.deep_view() == self.history()
                    &&& history.deep_view().len() > 0
                    &&& history.deep_view().last() == latest@
                },
                None => self.latest() is None && self.history().len() == 0,
            },
    {
        proof {
            use_type_invariant(self);
        }
        match &self.latest {
            Some(sample) => Some((share(sample), self.metrics_history.snapshot())),
            None => None,
        }
    }
}

impl Default for AppState {
    fn default() -> (state: Self)
        ensures
            state.latest() is None,
            state.history() == Seq::<DetailedMetricsView>::empty(),
            state.capacity() == HISTORY_SIZE,
    {
        AppState::new()
    }
}

/// What one tick of the sampling loop came to.
#[derive(Debug, PartialEq, Eq)]
pub enum TickReport {
    /// The sample was stored and the rules were evaluated on it; `alerts`
    /// lists the rules that fired.
    Stored { alerts: Vec<FiredAlert> },
    /// No sample could be collected; the state was left as it was.
    Skipped { error: CollectionError },
}

/// One tick of the sampling loop on a state that the loop has to itself.
/// A collected sample is stored, and only then are the rules evaluated on
/// it. A failed collection changes nothing: the latest sample and the
/// history stay as they were, and no rule is evaluated.
///
/// A loop that shares the state with readers goes through the store
/// instead, which holds its lock for the storing alone.
pub fn tick<N: Notifier>(
    state: &mut AppState,
    alerts: &AlertManager<N>,
    collected: Result<DetailedMetrics, CollectionError>,
) -> (report: TickReport)
    ensures
        final(state).capacity() == old(state).capacity(),
        consistent(final(state).latest(), final(state).history()),
        match collected {
            Ok(sample) => {
                &&& final(state).latest() == Some(sample@)
                &&& final(state).history() == push_bounded(
                    old(state).history(),
                    old(state).capacity(),
                    sample@,
                )
                &&& report matches TickReport::Stored { alerts: fired }
                &&& fired@.len() == fired_rules(alerts.rules(), sample@).len()
                &&& forall|k: int|
                    0 <= k < fired@.len() ==> reports_rule(
                        #[trigger] fired@[k],
                        fired_rules(alerts.rules(), sample@)[k],
                        alerts.rules(),
                        sample@,
                        alerts.notifiers(),
                    )
            },
            Err(error) => {
                &&& final(state).latest() == old(state).latest()
                &&& final(state).history() == old(state).history()
                &&& report == (TickReport::Skipped { error })
            },
        },
{
    match state.record(collected) {
        Ok(stored) => TickReport::Stored { alerts: alerts.check_alerts(&stored) },
        Err(error) => TickReport::Skipped { error },
    }
}

} // verus!
