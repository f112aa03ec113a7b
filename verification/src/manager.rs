//! The registry of monitors and the scheduler's round over it.
//!
//! The registry holds one pinger per monitor, keyed by the monitor's
//! identifier. One round of the scheduler ticks every enabled pinger and
//! hands back the monitors that are to be probed now; the host program
//! probes them and records the outcomes. Whoever shares a registry between
//! the scheduler and other callers puts it behind one lock: every operation
//! here takes the registry exclusively or reads it as a whole.

use crate::error::EngineError;
use crate::history::{records, MonitorPing};
use crate::monitor::{Monitor, MonitorView};
use crate::pinger::{Pinger, PingerView};
use crate::probe::PingResponse;
use crate::utils::{ID_LIMIT, ID_MIN};
use std::collections::HashMap;
use vstd::prelude::*;
use vstd::std_specs::iter::IteratorSpec;

verus! {

/// The live set of monitors with their scheduling state.
pub struct PingerManager {
    started: bool,
    pingers: HashMap<i64, Pinger>,
}

/// Mathematical content of a [`PingerManager`].
pub struct ManagerView {
    pub started: bool,
    pub pingers: Map<i64, PingerView>,
}

impl ManagerView {
    /// Every pinger is filed under its monitor's identifier, every monitor
    /// is valid, and every pinger is enabled exactly if its monitor is not
    /// paused.
    pub open spec fn wf(self) -> bool {
        forall|id: i64| #[trigger]
            self.pingers.contains_key(id) ==> self.pingers[id].monitor.id == id
                && self.pingers[id].monitor.valid() && self.pingers[id].wf()
    }

    /// The registry before anything was added.
    pub open spec fn empty() -> ManagerView {
        ManagerView { started: false, pingers: Map::empty() }
    }

    /// Whether a monitor with this identifier is registered.
    pub open spec fn contains(self, id: i64) -> bool {
        self.pingers.contains_key(id)
    }

    /// Whether the next round probes the monitor with this identifier.
    pub open spec fn due(self, id: i64) -> bool {
        self.pingers.contains_key(id) && self.pingers[id].due()
    }

    /// Identifiers of the monitors that the next round probes.
    pub open spec fn due_ids(self) -> Set<i64> {
        Set::new(|id: i64| self.due(id))
    }

    /// The registry after one round of the scheduler.
    pub open spec fn tick(self) -> ManagerView {
        ManagerView { pingers: self.pingers.map_values(|p: PingerView| p.step()), ..self }
    }

    /// The registry after `rounds` rounds of the scheduler.
    pub open spec fn after(self, rounds: nat) -> ManagerView
        decreases rounds,
    {
        if rounds == 0 {
            self
        } else {
            self.tick().after((rounds - 1) as nat)
        }
    }

    /// Number of probes of the monitor `id` that the next `rounds` rounds of
    /// the scheduler ask for.
    pub open spec fn probes(self, id: i64, rounds: nat) -> nat
        decreases rounds,
    {
        if rounds == 0 {
            0
        } else {
            let now: nat = if self.due(id) {
                1
            } else {
                0
            };
            now + self.tick().probes(id, (rounds - 1) as nat)
        }
    }

    /// The registry with `pinger` filed under its monitor's identifier, in
    /// place of any pinger that was filed there.
    pub open spec fn add(self, pinger: PingerView) -> ManagerView {
        ManagerView { pingers: self.pingers.insert(pinger.monitor.id, pinger), ..self }
    }

    /// The registry without the monitor `id`.
    pub open spec fn remove(self, id: i64) -> ManagerView {
        ManagerView { pingers: self.pingers.remove(id), ..self }
    }

    /// The registry with the monitor `definition.id` put under the new
    /// definition.
    pub open spec fn update(self, definition: MonitorView) -> ManagerView {
        let id = definition.id;
        ManagerView { pingers: self.pingers.insert(id, self.pingers[id].redefine(definition)), ..self }
    }

    /// The registry with the monitor `id` paused or resumed.
    pub open spec fn set_paused(self, id: i64, paused: bool) -> ManagerView {
        ManagerView { pingers: self.pingers.insert(id, self.pingers[id].set_paused(paused)), ..self }
    }

    /// The registry once the scheduler has been started.
    pub open spec fn start(self) -> ManagerView {
        ManagerView { started: true, ..self }
    }

    /// `list` holds the monitor of every pinger whose identifier is in
    /// `ids`, each once, in some order, and nothing else.
    pub open spec fn lists(self, list: Seq<Monitor>, ids: Set<i64>) -> bool {
        &&& forall|i: int|
            0 <= i < list.len() ==> ids.contains(#[trigger] list[i]@.id) && list[i]@
                == self.pingers[list[i]@.id].monitor
        &&& forall|id: i64|
            ids.contains(id) ==> exists|i: int| 0 <= i < list.len() && #[trigger] list[i]@.id == id
        &&& forall|i: int, j: int|
            0 <= i < j < list.len() ==> (#[trigger] list[i])@.id != (#[trigger] list[j])@.id
    }
}

/// The pingers of a registry by their content.
spec fn views(pingers: Map<i64, Pinger>) -> Map<i64, PingerView> {
    pingers.map_values(|p: Pinger| p@)
}

proof fn lemma_views(pingers: Map<i64, Pinger>)
    ensures
        views(pingers).dom() == pingers.dom(),
        forall|id: i64| #[trigger]
            pingers.contains_key(id) ==> views(pingers).contains_key(id) && views(pingers)[id]
                == pingers[id]@,
        forall|id: i64| #[trigger] views(pingers).contains_key(id) ==> pingers.contains_key(id),
{
    assert(views(pingers).dom() =~= pingers.dom());
}

proof fn lemma_views_insert(pingers: Map<i64, Pinger>, id: i64, pinger: Pinger)
    ensures
        views(pingers.insert(id, pinger)) == views(pingers).insert(id, pinger@),
{
    assert(views(pingers.insert(id, pinger)) =~= views(pingers).insert(id, pinger@));
}

proof fn lemma_views_remove(pingers: Map<i64, Pinger>, id: i64)
    ensures
        views(pingers.remove(id)) == views(pingers).remove(id),
{
    assert(views(pingers.remove(id)) =~= views(pingers).remove(id));
}

impl View for PingerManager {
    type V = ManagerView;

    closed spec fn view(&self) -> ManagerView {
        ManagerView {
            started: self.started,
            pingers: views(self.pingers@),
        }
    }
}

impl PingerManager {
    #[verifier::type_invariant]
    spec fn inv(self) -> bool {
        self@.wf()
    }

    /// Takes the pingers out for a change, leaving the registry empty
    /// until [`Self::put_back`] returns them.
    fn take_out(&mut self) -> (pingers: HashMap<i64, Pinger>)
        ensures
            views(pingers@) == old(self)@.pingers,
            old(self)@.wf(),
            final(self)@ == (ManagerView { started: old(self)@.started, pingers: Map::empty() }),
    {
        proof {
            use_type_invariant(&*self);
        }
        let mut pingers: HashMap<i64, Pinger> = HashMap::new();
        std::mem::swap(&mut self.pingers, &mut pingers);
        assert(self@.pingers =~= Map::empty());
        pingers
    }

    /// Returns the pingers to a registry that they were taken out of.
    fn put_back(&mut self, pingers: HashMap<i64, Pinger>)
        requires
            (ManagerView {
                started: old(self)@.started,
                pingers: views(pingers@),
            }).wf(),
        ensures
            final(self)@ == (ManagerView {
                started: old(self)@.started,
                pingers: views(pingers@),
            }),
    {
        let mut pingers = pingers;
        std::mem::swap(&mut self.pingers, &mut pingers);
    }

    /// Creates an empty registry whose scheduler has not been started.
    pub fn new() -> (manager: PingerManager)
        ensures
            manager@ == ManagerView::empty(),
            manager@.wf(),
    {
        let manager = PingerManager { started: false, pingers: HashMap::new() };
        assert(manager@.pingers =~= Map::empty());
        manager
    }

    /// Whether the scheduler has been started.
    pub fn is_started(&self) -> (started: bool)
        ensures
            started == self@.started,
    {
        self.started
    }

    /// Marks the scheduler as started. Returns whether this call was the
    /// one that started it: the host program spawns its loop only then.
    pub fn start(&mut self) -> (first: bool)
        ensures
            final(self)@.wf(),
            first == !old(self)@.started,
            final(self)@ == old(self)@.start(),
    {
        proof {
            use_type_invariant(&*self);
        }
        let first = !self.started;
        self.started = true;
        first
    }

    /// Number of registered monitors.
    pub fn len(&self) -> (count: usize)
        ensures
            count == self@.pingers.dom().len(),
    {
        proof {
            lemma_views(self.pingers@);
        }
        self.pingers.len()
    }

    /// Whether a monitor with this identifier is registered.
    pub fn contains(&self, id: i64) -> (found: bool)
        ensures
            found == self@.contains(id),
    {
        proof {
            lemma_views(self.pingers@);
        }
        self.pingers.contains_key(&id)
    }

    /// Files `pinger` under its monitor's identifier, in place of any pinger
    /// that was filed there. A monitor that is not valid is refused and the
    /// registry stays as it is.
    pub fn add_pinger(&mut self, pinger: Pinger) -> (result: Result<(), EngineError>)
        ensures
            final(self)@.wf(),
            match result {
                Ok(()) => pinger@.monitor.valid() && final(self)@ == old(self)@.add(pinger@),
                Err(error) => error == EngineError::Validation && !pinger@.monitor.valid()
                    && final(self)@ == old(self)@,
            },
    {
        proof {
            use_type_invariant(&*self);
        }
        if !pinger.monitor().is_valid() {
            return Err(EngineError::Validation);
        }
        let id = pinger.monitor().id;
        let mut pingers = self.take_out();
        proof {
            lemma_views_insert(pingers@, id, pinger);
        }
        pingers.insert(id, pinger);
        self.put_back(pingers);
        Ok(())
    }

    /// Registers `monitor` so that the next round probes it, unless it is
    /// paused.
    pub fn register(&mut self, monitor: Monitor) -> (result: Result<(), EngineError>)
        ensures
            final(self)@.wf(),
            match result {
                Ok(()) => monitor@.valid()
                    && final(self)@ == old(self)@.add(PingerView::fresh(monitor@, monitor@.interval)),
                Err(error) => error == EngineError::Validation && !monitor@.valid()
                    && final(self)@ == old(self)@,
            },
    {
        let interval = monitor.interval;
        self.add_pinger(Pinger::new(monitor, interval))
    }

    /// Takes the monitor `id` out of the registry. Returns whether it was
    /// registered.
    pub fn remove_pinger(&mut self, id: i64) -> (removed: bool)
        ensures
            final(self)@.wf(),
            removed == old(self)@.contains(id),
            final(self)@ == old(self)@.remove(id),
    {
        let mut pingers = self.take_out();
        proof {
            lemma_views(pingers@);
            lemma_views_remove(pingers@, id);
        }
        let previous = pingers.remove(&id);
        self.put_back(pingers);
        previous.is_some()
    }

    /// Puts the monitor `definition.id` under the new definition. Name,
    /// host, port, protocol and interval change; the pause state and the
    /// count of ticks since the last check stay.
    pub fn update_pinger(&mut self, definition: Monitor) -> (result: Result<(), EngineError>)
        ensures
            final(self)@.wf(),
            match result {
                Ok(()) => old(self)@.contains(definition@.id) && definition@.valid()
                    && final(self)@ == old(self)@.update(definition@),
                Err(EngineError::NotFound) => !old(self)@.contains(definition@.id)
                    && final(self)@ == old(self)@,
                Err(EngineError::Validation) => old(self)@.contains(definition@.id)
                    && !definition@.valid() && final(self)@ == old(self)@,
            },
    {
        proof {
            use_type_invariant(&*self);
            lemma_views(self.pingers@);
        }
        let id = definition.id;
        if !self.pingers.contains_key(&id) {
            return Err(EngineError::NotFound);
        }
        if !definition.is_valid() {
            return Err(EngineError::Validation);
        }
        let mut pingers = self.take_out();
        let ghost before = pingers@;
        proof {
            lemma_views(before);
        }
        match pingers.remove(&id) {
            Some(pinger) => {
                let mut pinger = pinger;
                pinger.redefine(definition);
                proof {
                    lemma_views_remove(before, id);
                    lemma_views_insert(before.remove(id), id, pinger);
                    assert(views(before).remove(id).insert(id, pinger@) =~= old(self)@.update(
                        definition@,
                    ).pingers);
                }
                pingers.insert(id, pinger);
            },
            None => {},
        }
        self.put_back(pingers);
        Ok(())
    }

    /// Pauses or resumes the monitor `id`. The count of ticks since its
    /// last check stays.
    pub fn set_paused(&mut self, id: i64, paused: bool) -> (result: Result<(), EngineError>)
        ensures
            final(self)@.wf(),
            match result {
                Ok(()) => old(self)@.contains(id)
                    && final(self)@ == old(self)@.set_paused(id, paused),
                Err(error) => error == EngineError::NotFound && !old(self)@.contains(id)
                    && final(self)@ == old(self)@,
            },
    {
        let mut pingers = self.take_out();
        let ghost before = pingers@;
        proof {
            lemma_views(before);
            lemma_views_remove(before, id);
        }
        match pingers.remove(&id) {
            Some(pinger) => {
                let mut pinger = pinger;
                pinger.set_paused(paused);
                proof {
                    lemma_views_insert(before.remove(id), id, pinger);
                    assert(views(before).remove(id).insert(id, pinger@) =~= old(self)@.set_paused(
                        id,
                        paused,
                    ).pingers);
                }
                pingers.insert(id, pinger);
                self.put_back(pingers);
                Ok(())
            },
            None => {
                assert(views(before).remove(id) =~= views(before));
                self.put_back(pingers);
                Err(EngineError::NotFound)
            },
        }
    }

    /// Pauses the monitor `id` if it runs and resumes it if it is paused.
    /// Returns the new pause state.
    pub fn toggle_paused(&mut self, id: i64) -> (result: Result<bool, EngineError>)
        ensures
            final(self)@.wf(),
            match result {
                Ok(paused) => old(self)@.contains(id)
                    && paused == !old(self)@.pingers[id].monitor.paused
                    && final(self)@ == old(self)@.set_paused(id, paused),
                Err(error) => error == EngineError::NotFound && !old(self)@.contains(id)
                    && final(self)@ == old(self)@,
            },
    {
        proof {
            use_type_invariant(&*self);
            lemma_views(self.pingers@);
        }
        let paused = match self.pingers.get(&id) {
            Some(pinger) => !pinger.monitor().paused,
            None => {
                return Err(EngineError::NotFound);
            },
        };
        match self.set_paused(id, paused) {
            Ok(()) => Ok(paused),
            Err(error) => Err(error),
        }
    }

    /// Whether the monitor `id` is paused. A monitor that is not registered
    /// does not count as paused.
    pub fn is_paused(&self, id: i64) -> (paused: bool)
        ensures
            paused == (self@.contains(id) && self@.pingers[id].monitor.paused),
    {
        proof {
            lemma_views(self.pingers@);
        }
        match self.pingers.get(&id) {
            Some(pinger) => pinger.monitor().paused,
            None => false,
        }
    }

    /// A copy of the monitor `id` as the registry holds it.
    pub fn get_monitor(&self, id: i64) -> (result: Result<Monitor, EngineError>)
        ensures
            match result {
                Ok(monitor) => self@.contains(id) && monitor@ == self@.pingers[id].monitor,
                Err(error) => error == EngineError::NotFound && !self@.contains(id),
            },
    {
        proof {
            lemma_views(self.pingers@);
        }
        match self.pingers.get(&id) {
            Some(pinger) => Ok(pinger.monitor().clone()),
            None => Err(EngineError::NotFound),
        }
    }

    fn ids(&self) -> (ids: Vec<i64>)
        ensures
            ids@.to_set() == self@.pingers.dom(),
            ids@.no_duplicates(),
            ids@.len() == self@.pingers.dom().len(),
    {
        broadcast use vstd::std_specs::hash::axiom_spec_keys_iter;

        let mut ids: Vec<i64> = Vec::new();
        let keys = self.pingers.keys();
        let ghost all = keys.remaining();
        for id in it: keys
            invariant
                it.seq() == all,
                ids@ == all.unref().take(it.index() as int),
        {
            ids.push(*id);
        }
        assert(ids@ == all.unref());
        proof {
            lemma_views(self.pingers@);
        }
        ids
    }

    /// Runs one round of the scheduler: every enabled pinger counts a tick,
    /// and the monitors whose count had reached their interval are handed
    /// back, each once, in no particular order, with their counts started
    /// again. The caller probes each of them and records the outcome.
    /// Paused monitors are left as they are.
    pub fn tick(&mut self) -> (due: Vec<Monitor>)
        ensures
            final(self)@.wf(),
            final(self)@ == old(self)@.tick(),
            old(self)@.lists(due@, old(self)@.due_ids()),
    {
        let ids = self.ids();
        let mut pingers = self.take_out();
        let ghost before = views(pingers@);
        let ghost started = old(self)@.started;
        let mut due: Vec<Monitor> = Vec::new();
        let ghost mut picked: Seq<int> = Seq::empty();
        let mut i: usize = 0;
        proof {
            lemma_views(pingers@);
        }
        while i < ids.len()
            invariant
                0 <= i <= ids.len(),
                ids@.no_duplicates(),
                ids@.to_set() == before.dom(),
                (ManagerView { started, pingers: before }).wf(),
                views(pingers@).dom() == before.dom(),
                forall|j: int|
                    0 <= j < i ==> views(pingers@)[#[trigger] ids@[j]] == before[ids@[j]].step(),
                forall|j: int|
                    i <= j < ids.len() ==> views(pingers@)[#[trigger] ids@[j]] == before[ids@[j]],
                picked.len() == due.len(),
                forall|x: int|
                    0 <= x < due.len() ==> 0 <= #[trigger] picked[x] < i && ids@[picked[x]]
                        == due@[x]@.id && before[ids@[picked[x]]].due() && due@[x]@
                        == before[ids@[picked[x]]].monitor,
                forall|x: int, y: int|
                    0 <= x < y < due.len() ==> #[trigger] picked[x] < #[trigger] picked[y],
                forall|j: int|
                    0 <= j < i && before[#[trigger] ids@[j]].due() ==> exists|x: int|
                        0 <= x < due.len() && #[trigger] picked[x] == j,
            decreases ids.len() - i,
        {
            let id = ids[i];
            let ghost round = pingers@;
            let ghost due_then = due@;
            let ghost picked_then = picked;
            proof {
                assert(ids@.to_set().contains(ids@[i as int]));
                lemma_views(round);
                lemma_views_remove(round, id);
            }
            match pingers.remove(&id) {
                Some(pinger) => {
                    let mut pinger = pinger;
                    if pinger.enabled() {
                        let probe = pinger.tick();
                        if probe {
                            due.push(pinger.monitor().clone());
                            proof {
                                picked = picked.push(i as int);
                            }
                        }
                    }
                    proof {
                        lemma_views_insert(round.remove(id), id, pinger);
                        assert(pinger@ == before[id].step());
                    }
                    pingers.insert(id, pinger);
                },
                None => {
                    assert(false);
                },
            }
            proof {
                let now = views(pingers@);
                assert(now =~= views(round).insert(id, before[id].step()));
                assert(now.dom() =~= before.dom());
                assert forall|j: int| 0 <= j < i + 1 implies now[#[trigger] ids@[j]]
                    == before[ids@[j]].step() by {
                    if j < i {
                        assert(ids@[j] != id);
                    }
                }
                assert forall|j: int| i + 1 <= j < ids.len() implies now[#[trigger] ids@[j]]
                    == before[ids@[j]] by {
                    assert(ids@[j] != id);
                }
                assert forall|j: int| 0 <= j < i + 1 && before[#[trigger] ids@[j]].due() implies exists|
                    x: int,
                | 0 <= x < due.len() && #[trigger] picked[x] == j by {
                    if j < i {
                        let x = choose|x: int| 0 <= x < due_then.len() && #[trigger] picked_then[x] == j;
                        assert(picked[x] == j);
                    } else {
                        assert(picked[due.len() - 1] == j);
                    }
                }
            }
            i = i + 1;
        }
        proof {
            let now = views(pingers@);
            let after = old(self)@.tick().pingers;
            assert forall|id: i64| now.contains_key(id) implies #[trigger] now[id] == after[id] by {
                assert(ids@.to_set().contains(id));
                let j = choose|j: int| 0 <= j < ids@.len() && ids@[j] == id;
                assert(now[ids@[j]] == before[ids@[j]].step());
            }
            assert(now =~= after);
            let due_ids = old(self)@.due_ids();
            assert forall|x: int| 0 <= x < due@.len() implies due_ids.contains(
                #[trigger] due@[x]@.id,
            ) && due@[x]@ == before[due@[x]@.id].monitor by {
                assert(ids@.to_set().contains(ids@[picked[x]]));
            }
            assert forall|id: i64| due_ids.contains(id) implies exists|x: int|
                0 <= x < due@.len() && #[trigger] due@[x]@.id == id by {
                assert(ids@.to_set().contains(id));
                let j = choose|j: int| 0 <= j < ids@.len() && ids@[j] == id;
                assert(before[ids@[j]].due());
                let x = choose|x: int| 0 <= x < due.len() && #[trigger] picked[x] == j;
                assert(due@[x]@.id == id);
            }
            assert forall|x: int, y: int| 0 <= x < y < due@.len() implies (#[trigger] due@[x])@.id
                != (#[trigger] due@[y])@.id by {
                assert(picked[x] < picked[y]);
            }
        }
        self.put_back(pingers);
        due
    }

    /// Records the outcome of a probe of `monitor`, provided that the
    /// monitor is still registered. The outcome of a probe that was on its
    /// way while its monitor was removed is dropped: nothing is recorded for
    /// a monitor that is gone, and nothing brings it back.
    pub fn record_probe(
        &self,
        monitor: &Monitor,
        response: &PingResponse,
    ) -> (record: Option<MonitorPing>)
        ensures
            match record {
                Some(ping) => self@.contains(monitor@.id) && ID_MIN <= ping@.id < ID_LIMIT
                    && records(ping@, monitor@.id as int, *response),
                None => !self@.contains(monitor@.id),
            },
    {
        if self.contains(monitor.id) {
            Some(MonitorPing::record(monitor, response))
        } else {
            None
        }
    }

    /// Copies of all registered monitors, each once, in no particular
    /// order. The copies are the caller's: changing them changes nothing in
    /// the registry.
    pub fn snapshot(&self) -> (monitors: Vec<Monitor>)
        ensures
            self@.lists(monitors@, self@.pingers.dom()),
            monitors@.len() == self@.pingers.dom().len(),
    {
        proof {
            use_type_invariant(self);
        }
        let ids = self.ids();
        let mut monitors: Vec<Monitor> = Vec::new();
        let mut i: usize = 0;
        while i < ids.len()
            invariant
                0 <= i <= ids.len(),
                ids@.to_set() == self@.pingers.dom(),
                ids@.no_duplicates(),
                self@.wf(),
                monitors@.len() == i,
                forall|j: int|
                    0 <= j < i ==> (#[trigger] monitors@[j])@ == self@.pingers[ids@[j]].monitor,
            decreases ids.len() - i,
        {
            let id = ids[i];
            proof {
                assert(ids@.to_set().contains(ids@[i as int]));
                lemma_views(self.pingers@);
            }
            match self.pingers.get(&id) {
                Some(pinger) => {
                    monitors.push(pinger.monitor().clone());
                },
                None => {
                    assert(false);
                },
            }
            i = i + 1;
        }
        proof {
            let dom = self@.pingers.dom();
            assert forall|j: int| 0 <= j < monitors@.len() implies dom.contains(
                #[trigger] monitors@[j]@.id,
            ) && monitors@[j]@ == self@.pingers[monitors@[j]@.id].monitor by {
                assert(ids@.to_set().contains(ids@[j]));
            }
            assert forall|id: i64| dom.contains(id) implies exists|j: int|
                0 <= j < monitors@.len() && #[trigger] monitors@[j]@.id == id by {
                assert(ids@.to_set().contains(id));
                let j = choose|j: int| 0 <= j < ids@.len() && ids@[j] == id;
                assert(monitors@[j]@.id == id);
            }
            assert forall|a: int, b: int| 0 <= a < b < monitors@.len() implies (
            #[trigger] monitors@[a])@.id != (#[trigger] monitors@[b])@.id by {
                assert(ids@.to_set().contains(ids@[a]));
                assert(ids@.to_set().contains(ids@[b]));
            }
        }
        monitors
    }
}

/// A round keeps every monitor registered and well formed.
pub proof fn lemma_tick_keeps_monitors(manager: ManagerView)
    requires
        manager.wf(),
    ensures
        manager.tick().wf(),
        manager.tick().pingers.dom() == manager.pingers.dom(),
        forall|id: i64| #[trigger]
            manager.contains(id) ==> manager.tick().pingers[id].monitor
                == manager.pingers[id].monitor,
{
    assert(manager.tick().pingers.dom() =~= manager.pingers.dom());
}

/// Rounds keep every monitor registered and the registry well formed.
pub proof fn lemma_rounds_keep_monitors(manager: ManagerView, rounds: nat)
    requires
        manager.wf(),
    ensures
        manager.after(rounds).wf(),
        manager.after(rounds).pingers.dom() == manager.pingers.dom(),
        manager.after(rounds).started == manager.started,
    decreases rounds,
{
    if rounds > 0 {
        lemma_tick_keeps_monitors(manager);
        lemma_rounds_keep_monitors(manager.tick(), (rounds - 1) as nat);
    }
}

/// The scheduler treats every monitor by itself: what rounds do to one
/// monitor is what they do to its pinger alone.
pub proof fn lemma_rounds_per_monitor(manager: ManagerView, id: i64, rounds: nat)
    requires
        manager.contains(id),
    ensures
        manager.after(rounds).contains(id),
        manager.after(rounds).pingers[id] == manager.pingers[id].after(rounds),
        manager.probes(id, rounds) == manager.pingers[id].probes(rounds),
    decreases rounds,
{
    if rounds > 0 {
        lemma_rounds_per_monitor(manager.tick(), id, (rounds - 1) as nat);
    }
}

/// A monitor with interval `k` is probed exactly once in the `k` rounds that
/// follow a check, and not at all in fewer rounds.
pub proof fn lemma_one_probe_per_interval(manager: ManagerView, id: i64, rounds: nat)
    requires
        manager.wf(),
        manager.contains(id),
        manager.pingers[id].enabled,
        manager.pingers[id].just_checked(),
    ensures
        rounds < manager.pingers[id].monitor.interval ==> manager.probes(id, rounds) == 0,
        rounds == manager.pingers[id].monitor.interval ==> manager.probes(id, rounds) == 1,
{
    lemma_rounds_per_monitor(manager, id, rounds);
    crate::pinger::lemma_one_probe_per_interval(manager.pingers[id], rounds);
}

/// A monitor that a round probes has just been checked when the round is
/// over.
pub proof fn lemma_probed_is_just_checked(manager: ManagerView, id: i64)
    requires
        manager.due(id),
    ensures
        manager.tick().pingers[id].just_checked(),
        manager.tick().pingers[id].enabled,
{
}

/// A monitor that is registered by [`PingerManager::register`] is probed in
/// the first round, unless it is paused, and from then on once per interval.
pub proof fn lemma_registered_is_due(manager: ManagerView, monitor: MonitorView)
    requires
        monitor.valid(),
    ensures
        manager.add(PingerView::fresh(monitor, monitor.interval)).due(monitor.id)
            == !monitor.paused,
        !monitor.paused ==> manager.add(
            PingerView::fresh(monitor, monitor.interval),
        ).tick().pingers[monitor.id].just_checked(),
{
}

/// Pausing a monitor stops its probes at once: no round after the pause
/// asks for one, however many follow. Resuming takes up the schedule where
/// it stood: the resumed monitor is scheduled as it was when it was paused,
/// its count of ticks included.
pub proof fn lemma_pause_then_resume(manager: ManagerView, id: i64, rounds: nat)
    requires
        manager.contains(id),
    ensures
        manager.set_paused(id, true).probes(id, rounds) == 0,
        manager.set_paused(id, true).after(rounds).set_paused(id, false).pingers[id]
            == manager.pingers[id].set_paused(false),
        manager.wf() && !manager.pingers[id].monitor.paused ==> manager.set_paused(
            id,
            true,
        ).after(rounds).set_paused(id, false).pingers[id] == manager.pingers[id],
{
    let paused = manager.set_paused(id, true);
    lemma_rounds_per_monitor(paused, id, rounds);
    crate::pinger::lemma_paused_is_quiet(paused.pingers[id], rounds);
}

/// Pausing or resuming one monitor leaves every other monitor's schedule
/// alone.
pub proof fn lemma_pause_is_local(manager: ManagerView, id: i64, paused: bool, other: i64)
    requires
        manager.contains(other),
        other != id,
    ensures
        manager.set_paused(id, paused).pingers[other] == manager.pingers[other],
{
}

/// A removed monitor is gone from the registry: it is in no listing of the
/// monitors and no round probes it. Every other monitor stays as it was.
pub proof fn lemma_removed_is_gone(manager: ManagerView, id: i64, listing: Seq<Monitor>, rounds: nat)
    requires
        manager.remove(id).lists(listing, manager.remove(id).pingers.dom()),
    ensures
        !manager.remove(id).contains(id),
        forall|i: int| 0 <= i < listing.len() ==> (#[trigger] listing[i])@.id != id,
        manager.remove(id).probes(id, rounds) == 0,
        !manager.remove(id).after(rounds).contains(id),
        forall|other: i64|
            other != id && manager.contains(other) ==> #[trigger] manager.remove(id).contains(other)
                && manager.remove(id).pingers[other] == manager.pingers[other],
    decreases rounds,
{
    let removed = manager.remove(id);
    assert forall|i: int| 0 <= i < listing.len() implies (#[trigger] listing[i])@.id != id by {
        assert(removed.pingers.dom().contains(listing[i]@.id));
    }
    lemma_absent_stays_absent(removed, id, rounds);
}

/// Rounds register nothing: a monitor that is not registered is not probed
/// and is not registered afterwards.
pub proof fn lemma_absent_stays_absent(manager: ManagerView, id: i64, rounds: nat)
    requires
        !manager.contains(id),
    ensures
        manager.probes(id, rounds) == 0,
        !manager.after(rounds).contains(id),
    decreases rounds,
{
    if rounds > 0 {
        lemma_absent_stays_absent(manager.tick(), id, (rounds - 1) as nat);
    }
}

/// A new definition takes effect with the next decision and does not touch
/// the count of ticks since the last check: the monitor is due in the next
/// round exactly if it is enabled and that count has reached the new
/// interval.
pub proof fn lemma_update_keeps_count(manager: ManagerView, definition: MonitorView)
    requires
        manager.contains(definition.id),
    ensures
        manager.update(definition).pingers[definition.id].last_ping
            == manager.pingers[definition.id].last_ping,
        manager.update(definition).pingers[definition.id].enabled
            == manager.pingers[definition.id].enabled,
        manager.update(definition).pingers[definition.id].monitor.interval == definition.interval,
        manager.update(definition).due(definition.id) == (manager.pingers[definition.id].enabled
            && manager.pingers[definition.id].last_ping >= definition.interval),
        manager.update(definition).pingers.dom() == manager.pingers.dom(),
{
    assert(manager.update(definition).pingers.dom() =~= manager.pingers.dom());
}

} // verus!
