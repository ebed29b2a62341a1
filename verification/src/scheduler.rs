//! The worker that paces updates of the preview.
//!
//! Each change of the document overwrites one pending slot and wakes the
//! worker. The worker waits for the lead delay, takes whatever the slot
//! holds by then, hands it on and waits again before it listens once more:
//! a burst of changes reaches the renderer as one update with the latest
//! body. Sleeping and rendering are done by the caller; what to do, and in
//! which order, is decided here.

use vstd::prelude::*;

verus! {

/// What wakes the worker.
#[derive(Debug, Clone, Copy, PartialEq, Eq)]
pub enum DeferEvent {
    /// The worker is to end.
    StopThread,
    /// A new document body waits in the slot.
    UpdatePreview,
    /// The delays before an update and between two updates have changed.
    SetDelays((u64, u64)),
}

/// One thing that the worker asks for.
#[derive(Debug, Clone, Copy, PartialEq, Eq, Structural)]
pub enum WorkerAction {
    /// Sleep for so many milliseconds.
    Sleep(u64),
    /// Take the body out of the slot and, if there was one, render it.
    Flush,
}

/// What the worker does on one event.
#[derive(Debug, PartialEq, Eq)]
pub struct Turn {
    /// What to do, in this order.
    pub actions: Vec<WorkerAction>,
    /// Whether the worker listens for another event afterwards.
    pub keep_running: bool,
}

/// The two delays of a cycle: the lead delay before the flush, and what is
/// left of the spacing between two updates after the lead delay.
pub open spec fn durations(ms_before: u64, ms_between: u64) -> (u64, u64) {
    (
        ms_before,
        if ms_between >= ms_before {
            (ms_between - ms_before) as u64
        } else {
            0u64
        },
    )
}

/// The two delays of a cycle.
pub fn gen_durations(ms_before_update: u64, ms_between_updates: u64) -> (r: (u64, u64))
    ensures
        r == durations(ms_before_update, ms_between_updates),
{
    (
        ms_before_update,
        if ms_between_updates >= ms_before_update {
            ms_between_updates - ms_before_update
        } else {
            0
        },
    )
}

/// The worker between two events: the delays now in effect.
#[derive(Debug, Clone, Copy, PartialEq, Eq)]
pub struct Worker {
    /// The sleep before a flush and the sleep after it, in milliseconds.
    pub delays: (u64, u64),
}

/// The delays in effect after an event.
pub open spec fn delays_after(delays: (u64, u64), event: DeferEvent) -> (u64, u64) {
    match event {
        DeferEvent::SetDelays((before, between)) => durations(before, between),
        _ => delays,
    }
}

/// What the worker asks for on an event: one cycle on a new body, nothing
/// otherwise.
pub open spec fn actions_on(delays: (u64, u64), event: DeferEvent) -> Seq<WorkerAction> {
    match event {
        DeferEvent::UpdatePreview => seq![
            WorkerAction::Sleep(delays.0),
            WorkerAction::Flush,
            WorkerAction::Sleep(delays.1),
        ],
        _ => Seq::empty(),
    }
}

impl Worker {
    /// A worker for the configured delays.
    pub fn new(ms_before_update: u64, ms_between_updates: u64) -> (r: Worker)
        ensures
            r.delays == durations(ms_before_update, ms_between_updates),
    {
        Worker { delays: gen_durations(ms_before_update, ms_between_updates) }
    }

    /// Decides what to do on an event.
    ///
    /// A stop ends the worker at once. New delays are kept for the cycles
    /// to come and cause no flush. A new body starts one cycle: the lead
    /// delay, the flush, the rest of the spacing.
    pub fn handle(&mut self, event: DeferEvent) -> (r: Turn)
        ensures
            final(self).delays == delays_after(old(self).delays, event),
            r.actions@ == actions_on(old(self).delays, event),
            r.keep_running == !(event is StopThread),
    {
        match event {
            DeferEvent::StopThread => Turn { actions: Vec::new(), keep_running: false },
            DeferEvent::SetDelays((before, between)) => {
                self.delays = gen_durations(before, between);
                Turn { actions: Vec::new(), keep_running: true }
            },
            DeferEvent::UpdatePreview => {
                let mut actions: Vec<WorkerAction> = Vec::new();
                actions.push(WorkerAction::Sleep(self.delays.0));
                actions.push(WorkerAction::Flush);
                actions.push(WorkerAction::Sleep(self.delays.1));
                assert(actions@ =~= actions_on(self.delays, event));
                Turn { actions, keep_running: true }
            },
        }
    }
}

/// The one place where a document body waits for the worker.
#[derive(Debug, Clone, PartialEq, Eq)]
pub struct PendingSlot {
    pub body: Option<String>,
}

impl View for PendingSlot {
    type V = Option<Seq<char>>;

    open spec fn view(&self) -> Option<Seq<char>> {
        match self.body {
            Some(body) => Some(body@),
            None => None,
        }
    }
}

impl PendingSlot {
    /// An empty slot.
    pub fn new() -> (r: PendingSlot)
        ensures
            r@ is None,
    {
        PendingSlot { body: None }
    }

    /// Puts a body into the slot in place of what it held.
    pub fn put(&mut self, body: String)
        ensures
            final(self)@ == Some(body@),
    {
        self.body = Some(body);
    }

    /// Takes the body out of the slot, which is empty afterwards.
    pub fn take(&mut self) -> (r: Option<String>)
        ensures
            final(self)@ is None,
            r matches Some(body) ==> old(self)@ == Some(body@),
            r is None ==> old(self)@ is None,
    {
        let mut body: Option<String> = None;
        core::mem::swap(&mut self.body, &mut body);
        body
    }
}

/// What the scheduler must do when the configured delays have changed.
#[derive(Debug, Clone, Copy, PartialEq, Eq)]
pub enum SchedulerOp {
    /// Start a worker with these delays.
    Start((u64, u64)),
    /// Tell the running worker its new delays.
    Reconfigure((u64, u64)),
    /// Stop the running worker and wait for it to end.
    Stop,
    /// Nothing: no worker runs and none is wanted.
    Keep,
}

/// What brings the scheduler from `running` to the state that `wanted`
/// asks for.
pub open spec fn reconciled(running: bool, wanted: Option<(u64, u64)>) -> SchedulerOp {
    match wanted {
        Some(delays) => if running {
            SchedulerOp::Reconfigure(delays)
        } else {
            SchedulerOp::Start(delays)
        },
        None => if running {
            SchedulerOp::Stop
        } else {
            SchedulerOp::Keep
        },
    }
}

/// Whether a worker runs once the operation is carried out.
pub open spec fn runs_after(running: bool, op: SchedulerOp) -> bool {
    match op {
        SchedulerOp::Start(_) => true,
        SchedulerOp::Reconfigure(_) => true,
        SchedulerOp::Stop => false,
        SchedulerOp::Keep => running,
    }
}

/// Decides how to bring the scheduler to the configured delays: a worker
/// is started where none runs, a running one is told its new delays, and it
/// is stopped where no delays are configured.
pub fn reconcile(running: bool, wanted: Option<(u64, u64)>) -> (r: SchedulerOp)
    ensures
        r == reconciled(running, wanted),
{
    match wanted {
        Some(delays) => if running {
            SchedulerOp::Reconfigure(delays)
        } else {
            SchedulerOp::Start(delays)
        },
        None => if running {
            SchedulerOp::Stop
        } else {
            SchedulerOp::Keep
        },
    }
}

/// What the worker acts on: the slot, the bodies rendered so far, each with
/// the time at which it was rendered, and the time that the worker has
/// slept, in milliseconds.
pub struct Bench {
    pub slot: Option<Seq<char>>,
    pub rendered: Seq<(Seq<char>, nat)>,
    pub slept: nat,
}

/// The bench after one action.
pub open spec fn act(bench: Bench, action: WorkerAction) -> Bench {
    match action {
        WorkerAction::Sleep(ms) => Bench { slept: (bench.slept + ms) as nat, ..bench },
        WorkerAction::Flush => match bench.slot {
            Some(body) => Bench {
                slot: None,
                rendered: bench.rendered.push((body, bench.slept)),
                ..bench
            },
            None => bench,
        },
    }
}

/// The bench after a list of actions, carried out in order.
pub open spec fn perform(bench: Bench, actions: Seq<WorkerAction>) -> Bench
    decreases actions.len(),
{
    if actions.len() == 0 {
        bench
    } else {
        act(perform(bench, actions.drop_last()), actions.last())
    }
}

/// The slot after the bodies were put into it one after the other.
pub open spec fn put_all(slot: Option<Seq<char>>, bodies: Seq<Seq<char>>) -> Option<Seq<char>> {
    if bodies.len() == 0 {
        slot
    } else {
        Some(bodies.last())
    }
}

/// The bench after the worker has answered `n` wake-ups for a new body.
pub open spec fn cycles(bench: Bench, delays: (u64, u64), n: nat) -> Bench
    decreases n,
{
    if n == 0 {
        bench
    } else {
        cycles(perform(bench, actions_on(delays, DeferEvent::UpdatePreview)), delays, (n - 1) as nat)
    }
}

proof fn lemma_cycle(bench: Bench, delays: (u64, u64))
    ensures
        perform(bench, actions_on(delays, DeferEvent::UpdatePreview)) == act(
            act(act(bench, WorkerAction::Sleep(delays.0)), WorkerAction::Flush),
            WorkerAction::Sleep(delays.1),
        ),
{
    let actions = actions_on(delays, DeferEvent::UpdatePreview);
    reveal_with_fuel(perform, 4);
    assert(actions.drop_last() =~= seq![WorkerAction::Sleep(delays.0), WorkerAction::Flush]);
    assert(actions.drop_last().drop_last() =~= seq![WorkerAction::Sleep(delays.0)]);
    assert(actions.drop_last().drop_last().drop_last() =~= Seq::<WorkerAction>::empty());
}

proof fn lemma_idle_cycles(bench: Bench, delays: (u64, u64), n: nat)
    requires
        bench.slot is None,
    ensures
        cycles(bench, delays, n).rendered == bench.rendered,
        cycles(bench, delays, n).slot is None,
    decreases n,
{
    if n > 0 {
        lemma_cycle(bench, delays);
        lemma_idle_cycles(
            perform(bench, actions_on(delays, DeferEvent::UpdatePreview)),
            delays,
            (n - 1) as nat,
        );
    }
}

/// A burst of changes is rendered once: where bodies were put into the slot
/// one after the other before the worker woke up, and the worker then
/// answers one wake-up for each of them, it renders the last body and no
/// other, once, and not before it has slept for the lead delay.
pub proof fn burst_is_rendered_once(bench: Bench, delays: (u64, u64), bodies: Seq<Seq<char>>)
    requires
        bodies.len() > 0,
    ensures
        ({
            let woken = Bench { slot: put_all(bench.slot, bodies), ..bench };
            let done = cycles(woken, delays, bodies.len());
            done.rendered == bench.rendered.push((bodies.last(), (bench.slept + delays.0) as nat))
                && done.slot is None
        }),
{
    let woken = Bench { slot: put_all(bench.slot, bodies), ..bench };
    lemma_cycle(woken, delays);
    lemma_idle_cycles(
        perform(woken, actions_on(delays, DeferEvent::UpdatePreview)),
        delays,
        (bodies.len() - 1) as nat,
    );
}

/// New delays change nothing but the timing of later cycles: the worker
/// neither sleeps nor renders on them, a body that waits stays in the slot,
/// the next cycle runs with the new delays, and a worker that runs is told
/// the delays and not started again.
pub proof fn new_delays_apply_to_later_cycles(
    bench: Bench,
    delays: (u64, u64),
    ms_before: u64,
    ms_between: u64,
)
    ensures
        perform(bench, actions_on(delays, DeferEvent::SetDelays((ms_before, ms_between)))) == bench,
        actions_on(
            delays_after(delays, DeferEvent::SetDelays((ms_before, ms_between))),
            DeferEvent::UpdatePreview,
        ) == seq![
            WorkerAction::Sleep(ms_before),
            WorkerAction::Flush,
            WorkerAction::Sleep(durations(ms_before, ms_between).1),
        ],
        reconciled(true, Some((ms_before, ms_between))) == SchedulerOp::Reconfigure(
            (ms_before, ms_between),
        ),
{
}

/// Once the scheduler was brought in line, a worker runs exactly where
/// delays are configured, whether or not one ran before.
pub proof fn worker_runs_where_delays_are_set(running: bool, wanted: Option<(u64, u64)>)
    ensures
        runs_after(running, reconciled(running, wanted)) == (wanted is Some),
{
}

} // verus!
