use vstd::prelude::*;
use crate::config::ConfigError;
use crate::interlock::sat_add;

verus! {

/// The target time after `k` samples of a stream that started at `start`:
/// each target is the previous one plus the interval, whenever the samples
/// actually went out.
pub open spec fn target_after(start: u64, interval: u64, k: nat) -> u64
    decreases k,
{
    if k == 0 {
        start
    } else {
        sat_add(target_after(start, interval, (k - 1) as nat), interval)
    }
}

/// What the cadence loop of one subscription learns after a step.
#[derive(Clone, Copy, PartialEq, Eq, Structural, Debug)]
pub enum StreamEvent {
    /// The sample went out; `now` is the time after delivery.
    Delivered { interval_millis: u64, now: u64 },
    /// The subscriber has gone away.
    Disconnected,
    /// The sample could not be produced.
    FetchFailed(ConfigError),
}

/// What the cadence loop does next.
#[derive(Clone, Copy, PartialEq, Eq, Structural, Debug)]
pub enum StreamAction {
    /// Sleep this long, then fetch and deliver the next sample.
    Sleep(u64),
    /// End the subscription quietly.
    Stop,
    /// End the subscription with this error for the subscriber.
    Fail(ConfigError),
}

/// The schedule of one subscription: the time the last sample was due.
pub struct Cadence {
    pub last_target: u64,
    pub start: Ghost<u64>,
    pub sent: Ghost<nat>,
}

impl Cadence {
    /// The schedule is anchored: the last target is the start plus one
    /// interval per delivered sample.
    pub open spec fn anchored(&self, interval: u64) -> bool {
        self.last_target == target_after(self.start@, interval, self.sent@)
    }

    pub fn new(now: u64) -> (r: Self)
        ensures
            r.last_target == now,
            r.start@ == now,
            r.sent@ == 0,
    {
        Cadence { last_target: now, start: Ghost(now), sent: Ghost(0) }
    }

    /// Decides the loop's next move. After a delivery the next target is the
    /// last target plus the interval, whatever the time now, and the loop
    /// sleeps until then (not at all when it is already late).
    pub fn step(&mut self, event: StreamEvent) -> (r: StreamAction)
        ensures
            final(self).start == old(self).start,
            match event {
                StreamEvent::Delivered { interval_millis, now } => {
                    let target = sat_add(old(self).last_target, interval_millis);
                    &&& final(self).last_target == target
                    &&& final(self).sent@ == old(self).sent@ + 1
                    &&& old(self).anchored(interval_millis) ==> final(self).anchored(interval_millis)
                    &&& r == StreamAction::Sleep(
                        if target > now {
                            (target - now) as u64
                        } else {
                            0
                        },
                    )
                },
                StreamEvent::Disconnected => r == StreamAction::Stop && *final(self) == *old(self),
                StreamEvent::FetchFailed(e) => r == StreamAction::Fail(e) && *final(self) == *old(self),
            },
    {
        match event {
            StreamEvent::Delivered { interval_millis, now } => {
                let target = self.last_target.saturating_add(interval_millis);
                self.last_target = target;
                self.sent = Ghost(self.sent@ + 1);
                proof {
                    assert((self.sent@ - 1) as nat == old(self).sent@);
                }
                if target > now {
                    StreamAction::Sleep(target - now)
                } else {
                    StreamAction::Sleep(0)
                }
            },
            StreamEvent::Disconnected => StreamAction::Stop,
            StreamEvent::FetchFailed(e) => StreamAction::Fail(e),
        }
    }
}

/// No drift: after `k` samples at a fixed interval the target is exactly
/// `start + k * interval`, however late each delivery was, so the mean gap
/// between targets is the interval itself.
pub proof fn lemma_targets_do_not_drift(start: u64, interval: u64, k: nat)
    requires
        start + k * interval <= u64::MAX,
    ensures
        target_after(start, interval, k) == start + k * interval,
    decreases k,
{
    if k > 0 {
        assert(start + (k - 1) * interval <= start + k * interval) by (nonlinear_arith)
            requires
                interval >= 0,
                k >= 1,
        ;
        lemma_targets_do_not_drift(start, interval, (k - 1) as nat);
        assert((k - 1) * interval + interval == k * interval) by (nonlinear_arith);
        let prev = target_after(start, interval, (k - 1) as nat);
        assert(prev + interval == start + k * interval);
        assert(target_after(start, interval, k) == sat_add(prev, interval));
    } else {
        assert(k * interval == 0) by (nonlinear_arith)
            requires
                k == 0,
        ;
    }
}

/// Consecutive targets are one interval apart.
pub proof fn lemma_gap_is_interval(start: u64, interval: u64, k: nat)
    requires
        start + (k + 1) * interval <= u64::MAX,
    ensures
        target_after(start, interval, k + 1) - target_after(start, interval, k) == interval,
{
    assert(start + k * interval <= start + (k + 1) * interval) by (nonlinear_arith)
        requires
            interval >= 0,
    ;
    lemma_targets_do_not_drift(start, interval, k);
    lemma_targets_do_not_drift(start, interval, k + 1);
    assert((k + 1) * interval == k * interval + interval) by (nonlinear_arith);
}

} // verus!
