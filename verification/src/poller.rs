use crate::settings::Settings;
use crate::storage::Storage;
use crate::storage::StorageDriver;
use crate::storage::spec_new_storage;
use vstd::arithmetic::mul::lemma_mul_inequality;
use vstd::arithmetic::mul::lemma_mul_is_distributive_add_other_way;
use vstd::prelude::*;

verus! {

/// The batch identifier every tick currently asks for.
pub open spec fn default_batch_id() -> Seq<char> {
    "123"@
}

/// Context reported when a dispatched fetch unit fails: enough to diagnose
/// which driver and batch were involved. The core's own backends are total,
/// so the core never constructs one; the record travels on the unit
/// reporting channel when a runtime failure is observed.
#[derive(Debug)]
pub struct FetchFailure {
    pub driver: String,
    pub batch_id: String,
    pub cause: String,
}

/// The dispatch side of the poller: one fetch unit per tick.
pub struct Poller;

impl Poller {
    /// One fetch unit. It exclusively owns its driver instance, performs
    /// exactly one batch fetch, and hands the payload back for routing. With
    /// the storage capability total, the unit always succeeds and the payload
    /// is exactly what the driver's fetch description promises for the
    /// default batch identifier.
    pub fn exec<T: Storage>(g: Box<T>) -> (r: Result<String, FetchFailure>)
        ensures
            (r matches Ok(p) && p@ == g.fetch_spec(default_batch_id())),
            (r matches Ok(p) && p@.len() > 0),
    {
        let batch_id: String = "123".to_owned();
        let payload = g.fetch_batch(batch_id);
        Ok(payload)
    }
}

/// What one fetch asks for: a single opaque, non-empty batch identifier.
pub struct BatchRequest {
    pub id: String,
}

impl BatchRequest {
    /// A valid request carries a non-empty identifier.
    pub open spec fn wf(self) -> bool {
        self.id@.len() > 0
    }

    /// Accepts exactly the non-empty identifiers.
    pub fn new(id: String) -> (r: Option<BatchRequest>)
        ensures
            id@.len() > 0 ==> (r matches Some(b) && b.id@ == id@ && b.wf()),
            id@.len() == 0 ==> r is None,
    {
        if id.as_str().is_empty() {
            None
        } else {
            Some(BatchRequest { id })
        }
    }
}

/// What the scheduling loop reacts to: a timer tick, or the reported outcome
/// of a previously dispatched fetch unit arriving on the unit channel.
pub enum LoopEvent {
    Tick,
    UnitSucceeded,
    UnitFailed(FetchFailure),
}

/// What the loop asks its runtime to do next. There is deliberately no
/// stop or abort action: a unit failure is contained at the unit boundary
/// and the loop keeps ticking; only process termination ends it.
pub enum LoopAction {
    Dispatch(StorageDriver, BatchRequest),
    Continue,
}

/// The mathematical state of the scheduling loop: how many ticks have
/// arrived, how many units they dispatched, and how many units have reported
/// success or failure so far.
pub struct LoopModel {
    pub ticks: nat,
    pub dispatched: nat,
    pub completed: nat,
    pub failed: nat,
}

impl LoopModel {
    /// Every tick dispatched exactly one unit, and no unit reported an
    /// outcome more than once.
    pub open spec fn wf(self) -> bool {
        self.dispatched == self.ticks && self.completed + self.failed <= self.dispatched
    }

    /// Units dispatched whose outcome has not been reported yet.
    pub open spec fn in_flight(self) -> int {
        self.dispatched - self.completed - self.failed
    }
}

/// How one event changes the loop state: a tick dispatches exactly one unit;
/// a reported outcome only moves one unit out of flight. No event stops the
/// loop — the transition is total and has no terminal state.
pub open spec fn spec_step(m: LoopModel, event: LoopEvent) -> LoopModel {
    match event {
        LoopEvent::Tick => LoopModel { ticks: m.ticks + 1, dispatched: m.dispatched + 1, ..m },
        LoopEvent::UnitSucceeded => LoopModel { completed: m.completed + 1, ..m },
        LoopEvent::UnitFailed(_) => LoopModel { failed: m.failed + 1, ..m },
    }
}

/// The loop state left after a whole history of events.
pub open spec fn run(m: LoopModel, events: Seq<LoopEvent>) -> LoopModel
    decreases events.len(),
{
    if events.len() == 0 {
        m
    } else {
        run(spec_step(m, events[0]), events.skip(1))
    }
}

/// How many ticks a history contains.
pub open spec fn tick_count(events: Seq<LoopEvent>) -> nat
    decreases events.len(),
{
    if events.len() == 0 {
        0
    } else {
        (if events[0] is Tick {
            1nat
        } else {
            0nat
        }) + tick_count(events.skip(1))
    }
}

/// The scheduling loop's bookkeeping, as the runtime carries it: the
/// executable mirror of `LoopModel`.
pub struct LoopState {
    pub ticks: u64,
    pub dispatched: u64,
    pub completed: u64,
    pub failed: u64,
}

impl View for LoopState {
    type V = LoopModel;

    open spec fn view(&self) -> LoopModel {
        LoopModel {
            ticks: self.ticks as nat,
            dispatched: self.dispatched as nat,
            completed: self.completed as nat,
            failed: self.failed as nat,
        }
    }
}

impl LoopState {
    /// The loop before its first tick: nothing dispatched, nothing in flight.
    pub fn new() -> (s: LoopState)
        ensures
            s@ == (LoopModel { ticks: 0, dispatched: 0, completed: 0, failed: 0 }),
            s@.wf(),
    {
        LoopState { ticks: 0, dispatched: 0, completed: 0, failed: 0 }
    }

    /// One reaction of the scheduling loop. A call runs a full
    /// Idle → Ticked → Dispatching → Idle cycle for a tick: it reads the
    /// current settings, obtains a fresh driver instance from the factory for
    /// the configured name, constructs the batch request and hands back the
    /// dispatch action; the runtime spawns the unit and returns to waiting
    /// without ever blocking on the fetch. A reported unit outcome only
    /// updates the bookkeeping: failures are contained at the unit boundary
    /// and never produce anything but `Continue`.
    pub fn step(&mut self, settings: &Settings, event: LoopEvent) -> (a: LoopAction)
        requires
            old(self)@.wf(),
            event is Tick ==> old(self).ticks < u64::MAX,
            !(event is Tick) ==> 0 < old(self)@.in_flight(),
        ensures
            final(self)@ == spec_step(old(self)@, event),
            final(self)@.wf(),
            event is Tick ==> (a matches LoopAction::Dispatch(d, req) && d == spec_new_storage(
                settings.database.driver@,
            ) && req.id@ == default_batch_id() && req.wf()),
            !(event is Tick) ==> (a is Continue),
    {
        match event {
            LoopEvent::Tick => {
                let driver = crate::storage::new_storage(settings.database.driver.as_str());
                let request = BatchRequest { id: "123".to_owned() };
                proof {
                    reveal_strlit("123");
                }
                self.ticks = self.ticks + 1;
                self.dispatched = self.dispatched + 1;
                LoopAction::Dispatch(driver, request)
            },
            LoopEvent::UnitSucceeded => {
                self.completed = self.completed + 1;
                LoopAction::Continue
            },
            LoopEvent::UnitFailed(_) => {
                self.failed = self.failed + 1;
                LoopAction::Continue
            },
        }
    }
}

/// Every tick dispatches exactly one fetch unit, and nothing else
/// dispatches any: after an arbitrary event history, the tick and dispatch
/// counters have both advanced by exactly the number of ticks in the
/// history, whatever unit outcomes it contains.
pub proof fn lemma_every_tick_dispatches_once(m: LoopModel, events: Seq<LoopEvent>)
    ensures
        run(m, events).ticks == m.ticks + tick_count(events),
        run(m, events).dispatched == m.dispatched + tick_count(events),
    decreases events.len(),
{
    if events.len() > 0 {
        lemma_every_tick_dispatches_once(spec_step(m, events[0]), events.skip(1));
    }
}

/// Appending one event to a history changes its tick count by one exactly
/// when that event is a tick.
pub proof fn lemma_tick_count_push(events: Seq<LoopEvent>, event: LoopEvent)
    ensures
        tick_count(events.push(event)) == tick_count(events) + (if event is Tick {
            1nat
        } else {
            0nat
        }),
    decreases events.len(),
{
    if events.len() == 0 {
        assert(events.push(event)[0] == event);
        assert(events.push(event).skip(1) =~= Seq::<LoopEvent>::empty());
        assert(tick_count(events.push(event).skip(1)) == 0);
    } else {
        assert(events.push(event)[0] == events[0]);
        assert(events.push(event).skip(1) =~= events.skip(1).push(event));
        lemma_tick_count_push(events.skip(1), event);
    }
}

/// A failed fetch unit never blocks the loop: after an arbitrary event
/// history — any number of unit failures included — the next tick still
/// arrives and advances the tick counter by exactly one.
pub proof fn lemma_failure_does_not_stop_ticks(m: LoopModel, events: Seq<LoopEvent>)
    ensures
        run(m, events.push(LoopEvent::Tick)).ticks == run(m, events).ticks + 1,
{
    lemma_every_tick_dispatches_once(m, events);
    lemma_every_tick_dispatches_once(m, events.push(LoopEvent::Tick));
    lemma_tick_count_push(events, LoopEvent::Tick);
}

/// Outcomes of distinct in-flight fetch units are independent: recording two
/// unit outcomes in either order reaches the same loop state, so units need
/// no ordering and share no lock.
pub proof fn lemma_unit_outcomes_commute(m: LoopModel, e1: LoopEvent, e2: LoopEvent)
    requires
        !(e1 is Tick),
        !(e2 is Tick),
    ensures
        spec_step(spec_step(m, e1), e2) == spec_step(spec_step(m, e2), e1),
{
}

/// When tick number `i` fires, in seconds from loop start: the first tick
/// fires immediately and every later one a fixed interval after the one
/// before.
pub open spec fn tick_time(interval: nat, i: nat) -> nat {
    i * interval
}

/// Evenly spaced ticks cover the observation window: with a positive
/// interval of `n` seconds, a window of at least `k * n` seconds contains
/// tick 0 through tick `k` — at least `k` ticks past the first — and
/// consecutive ticks are spaced exactly `n` seconds apart.
pub proof fn lemma_window_contains_ticks(n: nat, w: nat, k: nat)
    requires
        1 <= n,
        k * n <= w,
    ensures
        forall|i: nat| i <= k ==> #[trigger] tick_time(n, i) <= w,
        forall|i: nat| #[trigger] tick_time(n, i + 1) == tick_time(n, i) + n,
{
    assert forall|i: nat| i <= k implies #[trigger] tick_time(n, i) <= w by {
        lemma_mul_inequality(i as int, k as int, n as int);
    }
    assert forall|i: nat| #[trigger] tick_time(n, i + 1) == tick_time(n, i) + n by {
        lemma_mul_is_distributive_add_other_way(n as int, i as int, 1);
    }
}

} // verus!
