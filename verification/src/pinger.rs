//! Scheduling state of one monitor.
//!
//! A pinger counts the ticks since its monitor was last checked. A tick on a
//! pinger whose count has reached the monitor's interval asks for a probe and
//! starts the count again; any other tick only counts.

use crate::monitor::{Monitor, MonitorView};
use vstd::prelude::*;

verus! {

/// A monitor together with its place in the schedule.
#[derive(Debug)]
pub struct Pinger {
    monitor: Monitor,
    enabled: bool,
    last_ping: i64,
}

/// Mathematical content of a [`Pinger`].
pub struct PingerView {
    pub monitor: MonitorView,
    pub enabled: bool,
    pub last_ping: int,
}

impl PingerView {
    /// The enabled flag mirrors the pause state: a pinger is enabled
    /// exactly if its monitor is not paused.
    pub open spec fn wf(self) -> bool {
        self.enabled == !self.monitor.paused
    }

    /// State of a pinger that has just been created for `monitor`, with
    /// `timeout_sec` ticks counted as already elapsed.
    pub open spec fn fresh(monitor: MonitorView, timeout_sec: int) -> PingerView {
        PingerView { monitor, enabled: !monitor.paused, last_ping: timeout_sec }
    }

    /// Whether the next tick asks for a probe: the ticks counted since the
    /// last check have reached the interval.
    pub open spec fn fires(self) -> bool {
        self.last_ping >= self.monitor.interval
    }

    /// State after one tick: the count starts again after a probe, and in
    /// either case the tick itself is counted.
    pub open spec fn tick(self) -> PingerView {
        PingerView { last_ping: if self.fires() { 1 } else { self.last_ping + 1 }, ..self }
    }

    /// Whether one round of the scheduler probes this monitor: it is enabled
    /// and its tick fires.
    pub open spec fn due(self) -> bool {
        self.enabled && self.fires()
    }

    /// State after one round of the scheduler, which ticks enabled pingers
    /// and leaves the others alone.
    pub open spec fn step(self) -> PingerView {
        if self.enabled {
            self.tick()
        } else {
            self
        }
    }

    /// State after `rounds` rounds of the scheduler.
    pub open spec fn after(self, rounds: nat) -> PingerView
        decreases rounds,
    {
        if rounds == 0 {
            self
        } else {
            self.step().after((rounds - 1) as nat)
        }
    }

    /// Number of probes that the next `rounds` rounds of the scheduler ask
    /// for.
    pub open spec fn probes(self, rounds: nat) -> nat
        decreases rounds,
    {
        if rounds == 0 {
            0
        } else {
            let now: nat = if self.due() {
                1
            } else {
                0
            };
            now + self.step().probes((rounds - 1) as nat)
        }
    }

    /// Number of rounds that pass before the round that probes an enabled
    /// monitor: none if the count has reached the interval, otherwise as
    /// many as the count is short of it.
    pub open spec fn rounds_until_due(self) -> nat {
        if self.fires() {
            0
        } else {
            (self.monitor.interval - self.last_ping) as nat
        }
    }

    /// State right after a check: the tick that asked for the probe is the
    /// only one counted.
    pub open spec fn just_checked(self) -> bool {
        self.last_ping == 1
    }

    /// The same pinger, paused or resumed.
    pub open spec fn set_paused(self, paused: bool) -> PingerView {
        PingerView {
            monitor: MonitorView { paused, ..self.monitor },
            enabled: !paused,
            last_ping: self.last_ping,
        }
    }

    /// The same pinger under a new definition: name, host, port, protocol
    /// and interval are replaced; identity, pause state and the count of
    /// ticks stay.
    pub open spec fn redefine(self, definition: MonitorView) -> PingerView {
        PingerView {
            monitor: MonitorView {
                id: self.monitor.id,
                paused: self.monitor.paused,
                ..definition
            },
            enabled: self.enabled,
            last_ping: self.last_ping,
        }
    }
}

impl View for Pinger {
    type V = PingerView;

    closed spec fn view(&self) -> PingerView {
        PingerView { monitor: self.monitor@, enabled: self.enabled, last_ping: self.last_ping as int }
    }
}

impl Clone for Pinger {
    fn clone(&self) -> (copy: Self)
        ensures
            copy == *self,
    {
        proof {
            use_type_invariant(self);
        }
        Pinger { monitor: self.monitor.clone(), enabled: self.enabled, last_ping: self.last_ping }
    }
}

impl Pinger {
    #[verifier::type_invariant]
    spec fn inv(self) -> bool {
        self@.wf()
    }

    /// Creates the pinger of `monitor`, enabled unless the monitor is paused,
    /// with `timeout_sec` ticks counted as already elapsed. With
    /// `timeout_sec` equal to the monitor's interval the first tick probes.
    pub fn new(monitor: Monitor, timeout_sec: i64) -> (pinger: Pinger)
        ensures
            pinger@ == PingerView::fresh(monitor@, timeout_sec as int),
    {
        let enabled = !monitor.paused;
        Pinger { monitor, enabled, last_ping: timeout_sec }
    }

    /// The monitor that this pinger schedules.
    pub fn monitor(&self) -> (monitor: &Monitor)
        ensures
            monitor@ == self@.monitor,
            self@.wf(),
    {
        proof {
            use_type_invariant(self);
        }
        &self.monitor
    }

    /// Whether the scheduler ticks this pinger: whether its monitor is not
    /// paused.
    pub fn enabled(&self) -> (enabled: bool)
        ensures
            enabled == self@.enabled,
            self@.wf(),
    {
        proof {
            use_type_invariant(self);
        }
        self.enabled
    }

    /// Ticks counted since the last check.
    pub fn last_ping(&self) -> (ticks: i64)
        ensures
            ticks == self@.last_ping,
    {
        self.last_ping
    }

    /// Whether the next round of the scheduler probes this monitor.
    pub fn is_due(&self) -> (due: bool)
        ensures
            due == self@.due(),
    {
        self.enabled && self.last_ping >= self.monitor.interval
    }

    /// Counts one tick and says whether the monitor is to be probed now.
    /// The caller probes the monitor and records the outcome; the count has
    /// already started again.
    pub fn tick(&mut self) -> (probe: bool)
        ensures
            probe == old(self)@.fires(),
            final(self)@ == old(self)@.tick(),
    {
        proof {
            use_type_invariant(&*self);
        }
        let probe = self.last_ping >= self.monitor.interval;
        if probe {
            self.last_ping = 1;
        } else {
            self.last_ping = self.last_ping + 1;
        }
        probe
    }

    /// Pauses or resumes the monitor. The count of ticks is kept.
    pub fn set_paused(&mut self, paused: bool)
        ensures
            final(self)@ == old(self)@.set_paused(paused),
    {
        let mut monitor = self.monitor.clone();
        monitor.paused = paused;
        *self = Pinger { monitor, enabled: !paused, last_ping: self.last_ping };
    }

    /// Puts the pinger under a new definition: name, host, port, protocol
    /// and interval are taken from `definition`; identity, pause state and
    /// the count of ticks are kept.
    pub fn redefine(&mut self, definition: Monitor)
        ensures
            final(self)@ == old(self)@.redefine(definition@),
    {
        proof {
            use_type_invariant(&*self);
        }
        let mut definition = definition;
        definition.id = self.monitor.id;
        definition.paused = self.monitor.paused;
        self.monitor = definition;
    }
}

/// Rounds add up: the probes of `a + b` rounds are those of the first `a`
/// and those of the `b` that follow.
pub proof fn lemma_rounds_add(pinger: PingerView, a: nat, b: nat)
    ensures
        pinger.after(a + b) == pinger.after(a).after(b),
        pinger.probes(a + b) == pinger.probes(a) + pinger.after(a).probes(b),
    decreases a,
{
    if a > 0 {
        lemma_rounds_add(pinger.step(), (a - 1) as nat, b);
        assert(((a + b) - 1) as nat == (a - 1) as nat + b);
    }
}

/// While the count of an enabled pinger stays below the interval, rounds
/// only count: no probe is asked for.
pub proof fn lemma_quiet_rounds(pinger: PingerView, rounds: nat)
    requires
        pinger.enabled,
        pinger.last_ping + rounds <= pinger.monitor.interval,
    ensures
        pinger.probes(rounds) == 0,
        pinger.after(rounds) == (PingerView { last_ping: pinger.last_ping + rounds, ..pinger }),
    decreases rounds,
{
    if rounds > 0 {
        lemma_quiet_rounds(pinger.step(), (rounds - 1) as nat);
    }
}

/// No enabled monitor waits for ever: whatever its count, it is due after
/// [`PingerView::rounds_until_due`] rounds, none of which probes it.
pub proof fn lemma_next_probe(pinger: PingerView)
    requires
        pinger.enabled,
    ensures
        pinger.probes(pinger.rounds_until_due()) == 0,
        pinger.after(pinger.rounds_until_due()).due(),
{
    if !pinger.fires() {
        lemma_quiet_rounds(pinger, pinger.rounds_until_due());
    }
}

/// A monitor with interval `k` is probed exactly once in the `k` rounds that
/// follow a check, in the last of them, and not at all in fewer rounds.
/// After those `k` rounds it has again just been checked.
pub proof fn lemma_one_probe_per_interval(pinger: PingerView, rounds: nat)
    requires
        pinger.monitor.valid(),
        pinger.enabled,
        pinger.just_checked(),
    ensures
        rounds < pinger.monitor.interval ==> pinger.probes(rounds) == 0,
        rounds == pinger.monitor.interval ==> pinger.probes(rounds) == 1,
        rounds == pinger.monitor.interval ==> pinger.after(rounds) == pinger,
{
    let k = pinger.monitor.interval;
    if rounds < k {
        lemma_quiet_rounds(pinger, rounds);
    } else if rounds == k {
        let quiet = (k - 1) as nat;
        lemma_quiet_rounds(pinger, quiet);
        lemma_rounds_add(pinger, quiet, 1);
        let last = pinger.after(quiet);
        assert(last.due());
        assert(last.step().probes(0) == 0);
        assert(last.step().after(0) == last.step());
        assert(last.probes(1) == 1);
        assert(last.after(1) == last.step());
    }
}

/// In any number of rounds after a check, a monitor with interval `k` is
/// probed once for every `k` rounds completed.
pub proof fn lemma_probes_after_check(pinger: PingerView, rounds: nat)
    requires
        pinger.monitor.valid(),
        pinger.enabled,
        pinger.just_checked(),
    ensures
        pinger.probes(rounds) == rounds / (pinger.monitor.interval as nat),
    decreases rounds,
{
    let k = pinger.monitor.interval as nat;
    if rounds < k {
        lemma_one_probe_per_interval(pinger, rounds);
        assert(rounds / k == 0) by (nonlinear_arith)
            requires
                rounds < k,
        ;
    } else {
        let rest = (rounds - k) as nat;
        lemma_one_probe_per_interval(pinger, k);
        lemma_rounds_add(pinger, k, rest);
        lemma_probes_after_check(pinger, rest);
        assert(rounds / k == 1 + rest / k) by (nonlinear_arith)
            requires
                rounds == k + rest,
                k > 0,
        ;
    }
}

/// A paused monitor is never probed, whatever its count, and its state does
/// not change while it is paused.
pub proof fn lemma_paused_is_quiet(pinger: PingerView, rounds: nat)
    requires
        !pinger.enabled,
    ensures
        pinger.probes(rounds) == 0,
        pinger.after(rounds) == pinger,
    decreases rounds,
{
    if rounds > 0 {
        lemma_paused_is_quiet(pinger.step(), (rounds - 1) as nat);
    }
}

/// Pausing takes effect at once and resuming takes up the schedule where
/// it stood: no round between pause and resume asks for a probe, and the
/// resumed pinger is the pinger that was paused, count included.
pub proof fn lemma_pause_then_resume(pinger: PingerView, rounds: nat)
    requires
        pinger.wf(),
        !pinger.monitor.paused,
    ensures
        pinger.set_paused(true).probes(rounds) == 0,
        pinger.set_paused(true).after(rounds).set_paused(false) == pinger,
{
    lemma_paused_is_quiet(pinger.set_paused(true), rounds);
}

/// A new definition leaves the count of ticks alone and governs the very
/// next decision: the next tick fires exactly if the count has reached the
/// new interval.
pub proof fn lemma_redefine_keeps_count(pinger: PingerView, definition: MonitorView)
    ensures
        pinger.redefine(definition).last_ping == pinger.last_ping,
        pinger.redefine(definition).enabled == pinger.enabled,
        pinger.redefine(definition).monitor.id == pinger.monitor.id,
        pinger.redefine(definition).fires() == (pinger.last_ping >= definition.interval),
        pinger.redefine(definition).due() == (pinger.enabled && pinger.last_ping
            >= definition.interval),
{
}

} // verus!
