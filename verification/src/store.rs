//! The shared state store: the one state that the sampling loop writes and
//! that the dashboard, the HTTP handlers and the persistence sink read, each
//! from a thread of its own.
//!
//! The state sits behind a mutual-exclusion lock. The lock is held for one
//! call into the state and for nothing else: no rule is evaluated, nothing
//! is drawn or serialised while it is held. A state is consistent whenever a
//! program has it in hand, so whoever gets the lock finds the latest sample
//! at the end of the history, however updates and reads interleave, and also
//! where a thread died with the lock held.

use std::sync::Arc;
use std::sync::Mutex;
use std::sync::MutexGuard;
use std::sync::PoisonError;
use vstd::prelude::*;
use crate::alert::fired_rules;
use crate::alert::reports_rule;
use crate::alert::AlertManager;
use crate::alert::Notifier;
use crate::error::CollectionError;
use crate::handle::share;
use crate::monitor::DetailedMetrics;
use crate::state::AppState;
use crate::state::TickReport;

verus! {

/// `std::sync::Mutex`, of which nothing is known but that it holds a value.
#[verifier::external_type_specification]
#[verifier::external_body]
#[verifier::reject_recursive_types(T)]
pub struct ExMutex<T: ?Sized>(Mutex<T>);

/// `std::sync::MutexGuard`, the right to use what a locked mutex holds.
#[verifier::external_type_specification]
#[verifier::external_body]
#[verifier::reject_recursive_types(T)]
pub struct ExMutexGuard<'a, T: ?Sized + 'a>(MutexGuard<'a, T>);

/// `std::sync::PoisonError`, which a lock hands out in place of its guard
/// after a thread panicked while it held the lock.
#[verifier::external_type_specification]
#[verifier::external_body]
#[verifier::reject_recursive_types(T)]
pub struct ExPoisonError<T>(PoisonError<T>);

/// A new lock around `state`. Calls `Mutex::new`.
#[verifier::external_body]
fn new_lock(state: AppState) -> Mutex<AppState> {
    Mutex::new(state)
}

/// Waits for the lock and takes it. Calls `Mutex::lock`, which blocks until
/// the lock is free and reports whether a thread panicked while holding it.
/// A thread must not ask for a lock that it holds: the call may then never
/// return. Nothing is claimed of the state found: other threads may have
/// changed it.
#[verifier::external_body]
fn lock_state<'a>(lock: &'a Mutex<AppState>) -> Result<
    MutexGuard<'a, AppState>,
    PoisonError<MutexGuard<'a, AppState>>,
> {
    lock.lock()
}

/// The guard that a poisoned lock withheld. Calls `PoisonError::into_inner`.
#[verifier::external_body]
fn take_over<'a>(poisoned: PoisonError<MutexGuard<'a, AppState>>) -> MutexGuard<'a, AppState> {
    poisoned.into_inner()
}

/// The state that a guard gives the right to use. Dereferences the guard,
/// which is the `deref_mut` of `MutexGuard`.
#[verifier::external_body]
fn guarded<'a, 'b>(guard: &'a mut MutexGuard<'b, AppState>) -> &'a mut AppState {
    &mut **guard
}

/// The guard that an attempt on the lock comes to: the guard that the lock
/// handed out, or, where the lock is poisoned, the guard that it withheld.
/// Either way there is a guard, so a poisoned lock blocks nobody.
fn recover<'a>(
    locked: Result<MutexGuard<'a, AppState>, PoisonError<MutexGuard<'a, AppState>>>,
) -> (guard: MutexGuard<'a, AppState>)
    ensures
        locked matches Ok(handed) ==> guard == handed,
{
    match locked {
        Ok(handed) => handed,
        Err(poisoned) => take_over(poisoned),
    }
}

/// A handle on the shared state. Handles are cheap to clone, and all clones
/// reach the same state.
pub struct SharedStateStore {
    state: Arc<Mutex<AppState>>,
}

impl Clone for SharedStateStore {
    fn clone(&self) -> Self {
        SharedStateStore { state: share(&self.state) }
    }
}

impl SharedStateStore {
    /// A store that starts out with `state`.
    pub fn new(state: AppState) -> Self {
        SharedStateStore { state: Arc::new(new_lock(state)) }
    }

    /// Takes the lock. A lock that a panicking thread left behind is taken
    /// over as it is: the state behind it is consistent all the same, since
    /// no update leaves it half-done.
    fn acquire(&self) -> MutexGuard<'_, AppState> {
        recover(lock_state(&self.state))
    }

    /// Stores `sample` as the latest sample and as the newest of the
    /// history, both in one step as far as any reader can tell.
    pub fn update(&self, sample: Arc<DetailedMetrics>) {
        let mut guard = self.acquire();
        let state = guarded(&mut guard);
        state.update(sample);
    }

    /// Takes in what a collection came to. A collected sample is stored and
    /// handed back; a failure is handed back and the state is not touched.
    pub fn record(&self, collected: Result<DetailedMetrics, CollectionError>) -> (stored: Result<
        Arc<DetailedMetrics>,
        CollectionError,
    >)
        ensures
            match collected {
                Ok(sample) => stored matches Ok(handle) && *handle == sample,
                Err(error) => stored == Err::<Arc<DetailedMetrics>, CollectionError>(error),
            },
    {
        let mut guard = self.acquire();
        let state = guarded(&mut guard);
        state.record(collected)
    }

    /// The latest sample and the history as they stood together at one
    /// moment: the latest sample is the newest of the returned history,
    /// whatever other threads do meanwhile. Nothing is returned before the
    /// first sample is stored.
    pub fn read(&self) -> (pair: Option<(Arc<DetailedMetrics>, Vec<Arc<DetailedMetrics>>)>)
        ensures
            pair matches Some((latest, history)) ==> history.deep_view().len() > 0
                && history.deep_view().last() == latest@,
    {
        let mut guard = self.acquire();
        let state = guarded(&mut guard);
        state.read()
    }

    /// One tick of the sampling loop. A collected sample is stored, with
    /// the lock held; then, with the lock released, the rules are evaluated
    /// on it. A failed collection leaves the state untouched, and no rule
    /// is evaluated.
    pub fn tick<N: Notifier>(
        &self,
        alerts: &AlertManager<N>,
        collected: Result<DetailedMetrics, CollectionError>,
    ) -> (report: TickReport)
        ensures
            match collected {
                Ok(sample) => {
                    &&& report matches TickReport::Stored { alerts: fired }
                    &&& fired@.len() == fired_rules(alerts.rules(), sample@).len()
                    &&& forall|k: int|
                        0 <= k < fired@.len() ==> reports_rule(
                            #[trigger] fired@[k],
                            fired_rules(alerts.rules(), sample@)[k],
                            alerts.rules(),
                            sample@,
                            alerts.notifiers(),
                        )
                },
                Err(error) => report == (TickReport::Skipped { error }),
            },
    {
        match self.record(collected) {
            Ok(stored) => TickReport::Stored { alerts: alerts.check_alerts(&stored) },
            Err(error) => TickReport::Skipped { error },
        }
    }
}

} // verus!
