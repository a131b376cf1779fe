//! The alert engine: threshold rules evaluated on every sample, and the
//! notifiers that are told of each rule that fires.
//!
//! A rule looks at the sample in hand and at nothing else, so it fires on
//! every sample on which its condition holds, not only on the first of a run.

use vstd::prelude::*;
use vstd::string::*;
use crate::config::MEMORY_CRITICAL_THRESHOLD;
use crate::config::MEMORY_WARNING_THRESHOLD;
use crate::error::NotifierError;
use crate::monitor::calculate_memory_percentage;
use crate::monitor::spec_memory_percentage;
use crate::monitor::DetailedMetrics;
use crate::monitor::DetailedMetricsView;
use crate::text::fixed_one_decimal;
use crate::text::push_fixed_one_decimal;

verus! {

/// Something that can be told of an alert. Delivery may fail; the engine
/// records the failure and goes on.
pub trait Notifier {
    fn notify(&self, message: &str) -> Result<(), NotifierError>;
}

/// A boxed notifier notifies as what is in the box does, so notifiers of
/// different kinds can be registered side by side as `Box<dyn Notifier>`.
impl<T: Notifier + ?Sized> Notifier for Box<T> {
    fn notify(&self, message: &str) -> (outcome: Result<(), NotifierError>)
        ensures
            call_ensures(T::notify, (&**self, message), outcome),
    {
        (**self).notify(message)
    }
}

/// The quantity of a sample that a rule watches.
#[derive(Debug, PartialEq, Eq, Clone, Copy)]
pub enum AlertMetric {
    /// The share of memory in use.
    MemoryUsage,
    /// The overall CPU usage.
    CpuUsage,
}

impl AlertMetric {
    /// The watched quantity of `sample`, in hundredths of a percent.
    pub open spec fn spec_value(&self, sample: DetailedMetricsView) -> u64 {
        match self {
            AlertMetric::MemoryUsage => spec_memory_percentage(
                sample.basic.used_memory,
                sample.basic.total_memory,
            ),
            AlertMetric::CpuUsage => sample.basic.cpu_usage as u64,
        }
    }

    /// The watched quantity of `metrics`, in hundredths of a percent.
    pub fn value(&self, metrics: &DetailedMetrics) -> (value: u64)
        ensures
            value == self.spec_value(metrics@),
    {
        match self {
            AlertMetric::MemoryUsage => calculate_memory_percentage(
                metrics.basic.used_memory,
                metrics.basic.total_memory,
            ),
            AlertMetric::CpuUsage => metrics.basic.cpu_usage as u64,
        }
    }
}

/// A rule: it holds of a sample when the watched quantity has reached the
/// threshold, and then has a message to send.
#[derive(Debug, PartialEq, Eq)]
pub struct AlertRule {
    pub name: String,
    pub metric: AlertMetric,
    /// In hundredths of a percent.
    pub threshold: u64,
    /// What the message says before it gives the quantity.
    pub description: String,
}

impl AlertRule {
    /// Whether the rule fires on `sample`.
    pub open spec fn holds(&self, sample: DetailedMetricsView) -> bool {
        self.metric.spec_value(sample) >= self.threshold
    }

    /// The message of the rule on `sample`: the description, then the
    /// watched quantity in percent with one decimal.
    pub open spec fn spec_message(&self, sample: DetailedMetricsView) -> Seq<char> {
        self.description@ + ": "@ + fixed_one_decimal(self.metric.spec_value(sample) as nat)
            + "%"@
    }

    /// The rule that warns of high memory usage.
    pub fn memory_warning() -> (rule: Self)
        ensures
            rule.name@ == "memory_warning"@,
            rule.metric == AlertMetric::MemoryUsage,
            rule.threshold == MEMORY_WARNING_THRESHOLD,
            rule.description@ == "Memory usage rate is high"@,
    {
        AlertRule {
            name: String::from_str("memory_warning"),
            metric: AlertMetric::MemoryUsage,
            threshold: MEMORY_WARNING_THRESHOLD,
            description: String::from_str("Memory usage rate is high"),
        }
    }

    /// The rule that reports critical memory usage.
    pub fn memory_critical() -> (rule: Self)
        ensures
            rule.name@ == "memory_critical"@,
            rule.metric == AlertMetric::MemoryUsage,
            rule.threshold == MEMORY_CRITICAL_THRESHOLD,
            rule.description@ == "Memory usage rate reached dangerous level"@,
    {
        AlertRule {
            name: String::from_str("memory_critical"),
            metric: AlertMetric::MemoryUsage,
            threshold: MEMORY_CRITICAL_THRESHOLD,
            description: String::from_str("Memory usage rate reached dangerous level"),
        }
    }

    /// Whether the rule fires on `metrics`.
    pub fn condition(&self, metrics: &DetailedMetrics) -> (fires: bool)
        ensures
            fires == self.holds(metrics@),
    {
        self.metric.value(metrics) >= self.threshold
    }

    /// The message of the rule on `metrics`.
    pub fn message(&self, metrics: &DetailedMetrics) -> (text: String)
        ensures
            text@ == self.spec_message(metrics@),
    {
        let mut text = self.description.clone();
        text.append(": ");
        push_fixed_one_decimal(&mut text, self.metric.value(metrics));
        text.append("%");
        text
    }
}

/// The positions of the items of `items` that `keep` accepts, ascending.
pub open spec fn matching_indices<A>(items: Seq<A>, keep: spec_fn(A) -> bool) -> Seq<int>
    decreases items.len(),
{
    if items.len() == 0 {
        Seq::empty()
    } else {
        let before = matching_indices(items.drop_last(), keep);
        if keep(items.last()) {
            before.push(items.len() - 1)
        } else {
            before
        }
    }
}

/// The positions of the rules that fire on `sample`, in the order in which
/// the rules were registered.
pub open spec fn fired_rules(rules: Seq<AlertRule>, sample: DetailedMetricsView) -> Seq<int> {
    matching_indices(rules, |rule: AlertRule| rule.holds(sample))
}

/// The matching positions are positions of `items` whose item `keep`
/// accepts; each such position is among them; and they ascend.
pub proof fn lemma_matching_indices<A>(items: Seq<A>, keep: spec_fn(A) -> bool)
    ensures
        forall|i: int|
            #[trigger] matching_indices(items, keep).contains(i) ==> 0 <= i < items.len()
                && keep(items[i]),
        forall|i: int|
            0 <= i < items.len() && keep(#[trigger] items[i]) ==> matching_indices(
                items,
                keep,
            ).contains(i),
        forall|a: int, b: int|
            0 <= a < b < matching_indices(items, keep).len() ==> matching_indices(items, keep)[a]
                < matching_indices(items, keep)[b],
        matching_indices(items, keep).len() <= items.len(),
    decreases items.len(),
{
    if items.len() > 0 {
        let front = items.drop_last();
        lemma_matching_indices(front, keep);
        let before = matching_indices(front, keep);
        let all = matching_indices(items, keep);
        let last = items.len() - 1;
        assert(all == if keep(items.last()) {
            before.push(last)
        } else {
            before
        });
        assert forall|i: int| #[trigger] all.contains(i) implies 0 <= i < items.len() && keep(
            items[i],
        ) by {
            let k = choose|k: int| 0 <= k < all.len() && all[k] == i;
            if k < before.len() {
                assert(before[k] == i);
                assert(before.contains(i));
                assert(front[i] == items[i]);
            }
        }
        assert forall|i: int| 0 <= i < items.len() && keep(#[trigger] items[i]) implies all.contains(
            i,
        ) by {
            if i < last {
                assert(front[i] == items[i]);
                assert(before.contains(i));
                let k = choose|k: int| 0 <= k < before.len() && before[k] == i;
                assert(all[k] == i);
            } else {
                assert(all[all.len() - 1] == i);
            }
        }
        assert forall|a: int, b: int| 0 <= a < b < all.len() implies all[a] < all[b] by {
            if b >= before.len() {
                assert(before[a] == all[a]);
                assert(before.contains(before[a]));
            }
        }
    }
}

/// Every rule is judged by itself: a rule is among the fired ones exactly
/// when its own condition holds on the sample, whatever the other rules do;
/// and the fired rules come in the order of registration.
pub proof fn lemma_rules_fire_independently(rules: Seq<AlertRule>, sample: DetailedMetricsView)
    ensures
        forall|i: int|
            #[trigger] fired_rules(rules, sample).contains(i) <==> (0 <= i < rules.len()
                && rules[i].holds(sample)),
        forall|a: int, b: int|
            0 <= a < b < fired_rules(rules, sample).len() ==> fired_rules(rules, sample)[a]
                < fired_rules(rules, sample)[b],
{
    let keep = |rule: AlertRule| rule.holds(sample);
    lemma_matching_indices(rules, keep);
    assert forall|i: int| #[trigger]
        fired_rules(rules, sample).contains(i) <==> (0 <= i < rules.len() && rules[i].holds(
            sample,
        )) by {
        if 0 <= i < rules.len() && rules[i].holds(sample) {
            assert(keep(rules[i]));
        }
    }
}

/// `outcome` is what `notifier` answered when it was handed `message`.
pub open spec fn handed_to<N: Notifier>(
    notifier: N,
    message: Seq<char>,
    outcome: Result<(), NotifierError>,
) -> bool {
    exists|text: &str| text@ == message && #[trigger] call_ensures(
        N::notify,
        (&notifier, text),
        outcome,
    )
}

/// `outcomes` holds, notifier by notifier and in their order, what each of
/// `notifiers` answered when it was handed `message`.
pub open spec fn handed_to_all<N: Notifier>(
    notifiers: Seq<N>,
    message: Seq<char>,
    outcomes: Seq<Result<(), NotifierError>>,
) -> bool {
    &&& outcomes.len() == notifiers.len()
    &&& forall|j: int|
        0 <= j < notifiers.len() ==> handed_to(notifiers[j], message, #[trigger] outcomes[j])
}

/// A rule that fired on a sample, and what became of its message.
#[derive(Debug, PartialEq, Eq)]
pub struct FiredAlert {
    /// Position of the rule among the registered rules.
    pub rule: usize,
    /// Name of the rule.
    pub name: String,
    /// The message that went to the notifiers.
    pub message: String,
    /// The answer of each notifier, in the order of the notifiers.
    pub outcomes: Vec<Result<(), NotifierError>>,
}

/// Whether a delivery failed.
pub open spec fn is_failure(outcome: Result<(), NotifierError>) -> bool {
    outcome is Err
}

impl FiredAlert {
    /// The positions of the notifiers that failed to deliver, ascending.
    pub open spec fn spec_failed_notifiers(&self) -> Seq<int> {
        matching_indices(self.outcomes@, |outcome: Result<(), NotifierError>| is_failure(outcome))
    }

    /// The positions of the notifiers that failed to deliver, ascending.
    pub fn failed_notifiers(&self) -> (failed: Vec<usize>)
        ensures
            failed@.len() == self.spec_failed_notifiers().len(),
            forall|k: int|
                0 <= k < failed@.len() ==> #[trigger] failed@[k] as int
                    == self.spec_failed_notifiers()[k],
    {
        let ghost keep = |outcome: Result<(), NotifierError>| is_failure(outcome);
        let mut failed: Vec<usize> = Vec::new();
        let mut j: usize = 0;
        while j < self.outcomes.len()
            invariant
                j <= self.outcomes@.len(),
                keep == |outcome: Result<(), NotifierError>| is_failure(outcome),
                failed@.len() == matching_indices(self.outcomes@.take(j as int), keep).len(),
                forall|k: int|
                    0 <= k < failed@.len() ==> #[trigger] failed@[k] as int == matching_indices(
                        self.outcomes@.take(j as int),
                        keep,
                    )[k],
            decreases self.outcomes@.len() - j,
        {
            proof {
                let next = self.outcomes@.take(j as int + 1);
                assert(next.drop_last() =~= self.outcomes@.take(j as int));
                assert(next.last() == self.outcomes@[j as int]);
            }
            if self.outcomes[j].is_err() {
                failed.push(j);
            }
            j = j + 1;
        }
        assert(self.outcomes@.take(j as int) =~= self.outcomes@);
        failed
    }

    /// Whether every notifier delivered the message.
    pub fn delivered_everywhere(&self) -> (all: bool)
        ensures
            all == (self.spec_failed_notifiers().len() == 0),
    {
        self.failed_notifiers().len() == 0
    }
}

/// `alert` reports the rule at position `index` of `rules` firing on
/// `sample`, with the answers of `notifiers` to its message.
pub open spec fn reports_rule<N: Notifier>(
    alert: FiredAlert,
    index: int,
    rules: Seq<AlertRule>,
    sample: DetailedMetricsView,
    notifiers: Seq<N>,
) -> bool {
    &&& alert.rule as int == index
    &&& alert.name@ == rules[index].name@
    &&& alert.message@ == rules[index].spec_message(sample)
    &&& handed_to_all(notifiers, alert.message@, alert.outcomes@)
}

/// The rules and the notifiers, each in the order of registration.
pub struct AlertManager<N: Notifier> {
    rules: Vec<AlertRule>,
    notifiers: Vec<N>,
}

impl<N: Notifier> AlertManager<N> {
    /// The registered rules, first registered first.
    pub closed spec fn rules(&self) -> Seq<AlertRule> {
        self.rules@
    }

    /// The registered notifiers, first registered first.
    pub closed spec fn notifiers(&self) -> Seq<N> {
        self.notifiers@
    }

    /// A manager without rules and without notifiers.
    pub fn new() -> (manager: Self)
        ensures
            manager.rules() == Seq::<AlertRule>::empty(),
            manager.notifiers() == Seq::<N>::empty(),
    {
        AlertManager { rules: Vec::new(), notifiers: Vec::new() }
    }

    /// Registers `rule` behind the rules already there.
    pub fn add_rule(&mut self, rule: AlertRule)
        ensures
            final(self).rules() == old(self).rules().push(rule),
            final(self).notifiers() == old(self).notifiers(),
    {
        self.rules.push(rule);
    }

    /// Registers `notifier` behind the notifiers already there.
    pub fn add_notifier(&mut self, notifier: N)
        ensures
            final(self).notifiers() == old(self).notifiers().push(notifier),
            final(self).rules() == old(self).rules(),
    {
        self.notifiers.push(notifier);
    }

    /// The number of registered rules.
    pub fn rule_count(&self) -> (count: usize)
        ensures
            count == self.rules().len(),
    {
        self.rules.len()
    }

    /// The number of registered notifiers.
    pub fn notifier_count(&self) -> (count: usize)
        ensures
            count == self.notifiers().len(),
    {
        self.notifiers.len()
    }

    /// Hands `message` to every notifier in turn. A notifier that fails
    /// keeps none of the later ones from being handed the message.
    pub fn notify_all(&self, message: &str) -> (outcomes: Vec<Result<(), NotifierError>>)
        ensures
            handed_to_all(self.notifiers(), message@, outcomes@),
    {
        let mut outcomes: Vec<Result<(), NotifierError>> = Vec::new();
        let mut j: usize = 0;
        while j < self.notifiers.len()
            invariant
                j <= self.notifiers@.len(),
                outcomes@.len() == j,
                forall|k: int|
                    0 <= k < j ==> handed_to(self.notifiers@[k], message@, #[trigger] outcomes@[k]),
            decreases self.notifiers@.len() - j,
        {
            let outcome = self.notifiers[j].notify(message);
            assert(handed_to(self.notifiers@[j as int], message@, outcome)) by {
                assert(call_ensures(N::notify, (&self.notifiers@[j as int], message), outcome));
            }
            outcomes.push(outcome);
            j = j + 1;
        }
        outcomes
    }

    /// Evaluates every rule on `metrics`, in the order of registration. For
    /// each rule that fires the message is computed and handed to every
    /// notifier, in the order of registration. What is returned lists the
    /// fired rules in that order, each with the answers of the notifiers.
    pub fn check_alerts(&self, metrics: &DetailedMetrics) -> (report: Vec<FiredAlert>)
        ensures
            report@.len() == fired_rules(self.rules(), metrics@).len(),
            forall|k: int|
                0 <= k < report@.len() ==> reports_rule(
                    #[trigger] report@[k],
                    fired_rules(self.rules(), metrics@)[k],
                    self.rules(),
                    metrics@,
                    self.notifiers(),
                ),
    {
        let ghost keep = |rule: AlertRule| rule.holds(metrics@);
        let mut report: Vec<FiredAlert> = Vec::new();
        let mut i: usize = 0;
        while i < self.rules.len()
            invariant
                i <= self.rules@.len(),
                keep == |rule: AlertRule| rule.holds(metrics@),
                report@.len() == matching_indices(self.rules@.take(i as int), keep).len(),
                forall|k: int|
                    0 <= k < report@.len() ==> reports_rule(
                        #[trigger] report@[k],
                        matching_indices(self.rules@.take(i as int), keep)[k],
                        self.rules@,
                        metrics@,
                        self.notifiers@,
                    ),
            decreases self.rules@.len() - i,
        {
            proof {
                let next = self.rules@.take(i as int + 1);
                assert(next.drop_last() =~= self.rules@.take(i as int));
                assert(next.last() == self.rules@[i as int]);
            }
            let rule = &self.rules[i];
            if rule.condition(metrics) {
                let message = rule.message(metrics);
                let outcomes = self.notify_all(message.as_str());
                report.push(FiredAlert { rule: i, name: rule.name.clone(), message, outcomes });
            }
            i = i + 1;
        }
        assert(self.rules@.take(i as int) =~= self.rules@);
        report
    }
}

} // verus!
