//! The episode tracker: the one stateful piece of the daemon.
//!
//! The tracker consumes a stream of battery samples and decides, for a
//! fixed threshold, when to raise a low-battery alert.  It guarantees at
//! most one alert per contiguous low-battery episode: the first sample
//! that is discharging at or below the threshold fires an alert, every
//! further such sample is suppressed, and any sample outside the
//! condition (charging, full, unknown, or back above the threshold)
//! closes the episode and re-arms the alert.

use vstd::prelude::*;
use vstd::string::*;

use crate::text::spec_decimal;
use crate::text::u8_to_string;
use crate::traits::BatteryInfo;
use crate::traits::BatteryStatus;

verus! {

/// Decision returned by the tracker for one observed sample.
#[derive(Debug)]
pub enum Action {
    /// No user-visible action this cycle.
    Nothing,
    /// Raise an alert carrying the given message body.
    FireAlert(String),
}

/// The low-discharging condition: the battery is discharging at or
/// below the threshold.
pub open spec fn is_low(info: BatteryInfo, threshold: u8) -> bool {
    info.status == BatteryStatus::Discharging && info.capacity <= threshold
}

/// The alerted flag after observing one sample.  The flag is set while
/// the low-discharging condition holds and cleared as soon as it does
/// not, so its new value depends on the sample alone.
pub open spec fn step_alerted(alerted: bool, info: BatteryInfo, threshold: u8) -> bool {
    is_low(info, threshold)
}

/// Whether observing one sample in the given state fires an alert: the
/// sample satisfies the low-discharging condition and no alert is open
/// for the current episode.
pub open spec fn step_fires(alerted: bool, info: BatteryInfo, threshold: u8) -> bool {
    is_low(info, threshold) && !alerted
}

/// The alerted flag after observing a whole sequence of samples,
/// starting from `init`.
pub open spec fn alerted_after(init: bool, samples: Seq<BatteryInfo>, threshold: u8) -> bool
    decreases samples.len(),
{
    if samples.len() == 0 {
        init
    } else {
        step_alerted(alerted_after(init, samples.drop_last(), threshold), samples.last(), threshold)
    }
}

/// Whether an alert fires at position `k` of a run over `samples`
/// starting from `init`.
pub open spec fn fires_at(init: bool, samples: Seq<BatteryInfo>, threshold: u8, k: int) -> bool
    recommends
        0 <= k < samples.len(),
{
    step_fires(alerted_after(init, samples.take(k), threshold), samples[k], threshold)
}

/// The message body of a low-battery alert for the given capacity.
pub open spec fn spec_alert_message(capacity: u8) -> Seq<char> {
    "Battery level is at "@ + spec_decimal(capacity as nat) + "%. Please plug in charger."@
}

/// Builds the message body of a low-battery alert.
pub fn alert_message(capacity: u8) -> (r: String)
    ensures
        r@ == spec_alert_message(capacity),
{
    let mut r = String::from_str("Battery level is at ");
    let digits = u8_to_string(capacity);
    r.append(digits.as_str());
    r.append("%. Please plug in charger.");
    proof {
        assert(r@ =~= spec_alert_message(capacity));
    }
    r
}

/// Tracks one low-battery episode at a time.
///
/// `alerted` is the single bit of daemon state: whether an alert is
/// open for the active low-battery episode.  It starts `false`, is set
/// on the transition into an episode (the call that fires the alert),
/// and is cleared by the first sample that leaves the condition.
pub struct EpisodeTracker {
    /// Alert when a discharging sample is at or below this percentage.
    pub threshold: u8,
    /// Whether an alert is open for the active low-battery episode.
    pub alerted: bool,
}

impl EpisodeTracker {
    /// A fresh tracker with no open episode.
    pub fn new(threshold: u8) -> (t: Self)
        ensures
            t.threshold == threshold,
            !t.alerted,
    {
        EpisodeTracker { threshold, alerted: false }
    }

    /// Observes one sample and decides whether to alert.
    ///
    /// Fires exactly when the sample is discharging at or below the
    /// threshold and no alert is open; the message embeds the sample's
    /// capacity.  Any sample outside the condition closes the episode.
    pub fn observe(&mut self, info: &BatteryInfo) -> (a: Action)
        ensures
            final(self).threshold == old(self).threshold,
            final(self).alerted == step_alerted(old(self).alerted, *info, old(self).threshold),
            step_fires(old(self).alerted, *info, old(self).threshold) ==> (a matches Action::FireAlert(m)
                && m@ == spec_alert_message(info.capacity)),
            !step_fires(old(self).alerted, *info, old(self).threshold) ==> a is Nothing,
    {
        if info.status == BatteryStatus::Discharging && info.capacity <= self.threshold {
            if !self.alerted {
                self.alerted = true;
                Action::FireAlert(alert_message(info.capacity))
            } else {
                Action::Nothing
            }
        } else {
            self.alerted = false;
            Action::Nothing
        }
    }

    /// One scheduling decision: feeds a poll result into the tracker.
    ///
    /// A failed sample leaves the tracker untouched and performs no
    /// action — a transient read failure must not erase episode memory
    /// and is never itself an alert condition.  A successful sample is
    /// observed as usual.
    pub fn scheduler_step(&mut self, sample: &Result<BatteryInfo, String>) -> (a: Action)
        ensures
            final(self).threshold == old(self).threshold,
            sample is Err ==> *final(self) == *old(self) && a is Nothing,
            *sample matches Ok(info) ==> {
                &&& final(self).alerted == step_alerted(old(self).alerted, info, old(self).threshold)
                &&& (step_fires(old(self).alerted, info, old(self).threshold) ==> (a
                    matches Action::FireAlert(m) && m@ == spec_alert_message(info.capacity)))
                &&& (!step_fires(old(self).alerted, info, old(self).threshold) ==> a is Nothing)
            },
    {
        match sample {
            Ok(info) => self.observe(info),
            Err(_) => Action::Nothing,
        }
    }
}

/// An alert fires exactly on the transition into an episode: on a low
/// sample that is either the first of the run or preceded by a sample
/// outside the low-discharging condition.
pub proof fn lemma_fires_iff_episode_starts(
    init: bool,
    samples: Seq<BatteryInfo>,
    threshold: u8,
    k: int,
)
    requires
        0 <= k < samples.len(),
    ensures
        fires_at(init, samples, threshold, k) <==> (is_low(samples[k], threshold) && if k == 0 {
            !init
        } else {
            !is_low(samples[k - 1], threshold)
        }),
{
    let p = samples.take(k);
    if k > 0 {
        assert(p.last() == samples[k - 1]);
    }
}

/// At most one alert per episode: once an alert has fired at position
/// `i`, no further alert fires at any later position `l` as long as the
/// low-discharging condition holds continuously from `i` through `l`.
pub proof fn lemma_at_most_one_alert_per_episode(
    init: bool,
    samples: Seq<BatteryInfo>,
    threshold: u8,
    i: int,
    j: int,
)
    requires
        0 <= i <= j < samples.len(),
        fires_at(init, samples, threshold, i),
        forall|k: int| i <= k <= j ==> is_low(#[trigger] samples[k], threshold),
    ensures
        forall|l: int| i < l <= j ==> !fires_at(init, samples, threshold, l),
{
    assert forall|l: int| i < l <= j implies !fires_at(init, samples, threshold, l) by {
        let p = samples.take(l);
        assert(p.last() == samples[l - 1]);
        assert(alerted_after(init, p, threshold) == is_low(samples[l - 1], threshold));
        assert(is_low(samples[l - 1], threshold));
    }
}

/// Between any two alerts there is a sample outside the low-discharging
/// condition: an episode ends before a second alert can fire.
pub proof fn lemma_alerts_separated_by_episode_end(
    init: bool,
    samples: Seq<BatteryInfo>,
    threshold: u8,
    i: int,
    j: int,
)
    requires
        0 <= i < j < samples.len(),
        fires_at(init, samples, threshold, i),
        fires_at(init, samples, threshold, j),
    ensures
        exists|k: int| i <= k < j && !is_low(#[trigger] samples[k], threshold),
{
    let p = samples.take(j);
    assert(p.last() == samples[j - 1]);
    assert(alerted_after(init, p, threshold) == is_low(samples[j - 1], threshold));
    assert(!is_low(samples[j - 1], threshold));
    assert(i <= j - 1 < j && !is_low(samples[j - 1], threshold));
}

/// The flag invariant: after any non-empty run, the alerted flag is
/// set only if the most recently observed sample satisfied the
/// low-discharging condition at the time it was observed.
pub proof fn lemma_alerted_implies_last_low(init: bool, samples: Seq<BatteryInfo>, threshold: u8)
    requires
        samples.len() > 0,
        alerted_after(init, samples, threshold),
    ensures
        is_low(samples.last(), threshold),
{
}

/// Suppression is idempotent: after an alert has fired, re-observing
/// the same low sample any number of times never fires again and keeps
/// the flag set.
pub proof fn lemma_suppression_idempotent(
    samples: Seq<BatteryInfo>,
    threshold: u8,
    info: BatteryInfo,
)
    requires
        is_low(info, threshold),
        forall|k: int| 0 <= k < samples.len() ==> #[trigger] samples[k] == info,
    ensures
        forall|k: int| 0 <= k < samples.len() ==> !fires_at(true, samples, threshold, k),
        alerted_after(true, samples, threshold),
{
    assert forall|k: int| 0 <= k < samples.len() implies !fires_at(true, samples, threshold, k) by {
        let p = samples.take(k);
        if k == 0 {
            assert(alerted_after(true, p, threshold));
        } else {
            assert(p.last() == samples[k - 1]);
            assert(alerted_after(true, p, threshold) == is_low(samples[k - 1], threshold));
        }
    }
    if samples.len() > 0 {
        assert(samples.last() == samples[samples.len() - 1]);
    }
}

} // verus!
