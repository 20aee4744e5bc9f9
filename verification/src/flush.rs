//! The loop of the flush thread.
//!
//! The thread sleeps, samples the queues of the runtimes when a sample is due,
//! hands its own buffered events to the collector, flushes the recorder, and
//! describes the runtimes anew when the writer has moved on to another file.
//! What it does next is decided here; the thread performs the action and
//! reports what came of it.
use vstd::prelude::*;

verus! {

/// How long the flush thread sleeps in each round.
pub const FLUSH_SLEEP_MILLIS: u64 = 5;

/// How much time passes at least between two samples of the queues.
pub const SAMPLE_INTERVAL_NANOS: u64 = 10_000_000;

/// What the flush thread is to do.
#[derive(Debug, Clone, Copy, PartialEq, Eq, Structural)]
pub enum FlushAction {
    /// Read the stop flag.
    LoadStop,
    /// Sleep for `FLUSH_SLEEP_MILLIS`, then read the clock.
    Sleep,
    /// Sample the global queue of every runtime.
    SampleQueues,
    /// Take the events out of the thread's own buffer.
    DrainBuffer,
    /// Hand the drained events to the collector.
    AcceptFlush,
    /// Flush the recorder.
    FlushRecorder,
    /// Ask the writer whether it has moved on to a new file since it was last
    /// asked.
    TakeRotated,
    /// Write the `RuntimeDef` events of all runtimes.
    EmitRuntimeDefs,
    /// End the thread.
    Exit,
}

/// What came of an action.
#[derive(Debug, Clone, Copy, PartialEq, Eq, Structural)]
pub enum FlushEvent {
    /// The stop flag was read.
    StopFlag(bool),
    /// The sleep is over, and the clock was read.
    Woke { now_nanos: u64 },
    /// The queues were sampled.
    Sampled,
    /// The buffer was drained.
    Drained { empty: bool },
    /// The collector has taken the drained events.
    Accepted,
    /// The recorder was flushed.
    Flushed,
    /// The writer has answered whether it has moved on to a new file.
    Rotated(bool),
    /// The `RuntimeDef` events were written.
    Emitted,
}

/// Where the flush thread stands.
#[derive(Debug, Clone, Copy, PartialEq, Eq, Structural)]
pub struct FlushState {
    /// What is to be done next.
    pub action: FlushAction,
    /// Clock at the last sample, or at the start if there was none.
    pub last_sample_nanos: u64,
}

impl FlushState {
    /// Whether a sample is due.
    pub open spec fn due(self, now_nanos: u64) -> bool {
        now_nanos - self.last_sample_nanos >= SAMPLE_INTERVAL_NANOS
    }

    /// The state in which `action` is next, with the last sample unchanged.
    pub open spec fn to(self, action: FlushAction) -> Option<FlushState> {
        Some(FlushState { action, ..self })
    }

    /// Where the thread stands after an event; `None` if the event does not
    /// answer the action.
    pub open spec fn after(self, event: FlushEvent) -> Option<FlushState> {
        match (self.action, event) {
            (FlushAction::LoadStop, FlushEvent::StopFlag(stop)) => self.to(
                if stop {
                    FlushAction::Exit
                } else {
                    FlushAction::Sleep
                },
            ),
            (FlushAction::Sleep, FlushEvent::Woke { now_nanos }) => if self.due(now_nanos) {
                Some(
                    FlushState { action: FlushAction::SampleQueues, last_sample_nanos: now_nanos },
                )
            } else {
                self.to(FlushAction::DrainBuffer)
            },
            (FlushAction::SampleQueues, FlushEvent::Sampled) => self.to(FlushAction::DrainBuffer),
            (FlushAction::DrainBuffer, FlushEvent::Drained { empty }) => self.to(
                if empty {
                    FlushAction::FlushRecorder
                } else {
                    FlushAction::AcceptFlush
                },
            ),
            (FlushAction::AcceptFlush, FlushEvent::Accepted) => self.to(FlushAction::FlushRecorder),
            (FlushAction::FlushRecorder, FlushEvent::Flushed) => self.to(FlushAction::TakeRotated),
            (FlushAction::TakeRotated, FlushEvent::Rotated(rotated)) => self.to(
                if rotated {
                    FlushAction::EmitRuntimeDefs
                } else {
                    FlushAction::LoadStop
                },
            ),
            (FlushAction::EmitRuntimeDefs, FlushEvent::Emitted) => self.to(FlushAction::LoadStop),
            _ => None,
        }
    }

    /// The loop starts by reading the stop flag.
    pub fn start(now_nanos: u64) -> (res: FlushState)
        ensures
            res.action == FlushAction::LoadStop,
            res.last_sample_nanos == now_nanos,
    {
        FlushState { action: FlushAction::LoadStop, last_sample_nanos: now_nanos }
    }

    /// Take an event, and give the action that follows. An event that does not
    /// answer the pending action is not taken: the result is `None`.
    pub fn step(&mut self, event: FlushEvent) -> (res: Option<FlushAction>)
        ensures
            match old(self).after(event) {
                Some(next) => *final(self) == next && res == Some(next.action),
                None => *final(self) == *old(self) && res is None,
            },
            old(self).action is Sleep ==> (event matches FlushEvent::Woke { now_nanos } ==> {
                &&& res == Some(FlushAction::SampleQueues) <==> now_nanos
                    - old(self).last_sample_nanos >= SAMPLE_INTERVAL_NANOS
                &&& res == Some(FlushAction::DrainBuffer) <==> now_nanos
                    - old(self).last_sample_nanos < SAMPLE_INTERVAL_NANOS
            }),
    {
        let next: Option<FlushAction> = match (self.action, event) {
            (FlushAction::LoadStop, FlushEvent::StopFlag(stop)) => if stop {
                Some(FlushAction::Exit)
            } else {
                Some(FlushAction::Sleep)
            },
            (FlushAction::Sleep, FlushEvent::Woke { now_nanos }) => {
                if now_nanos.saturating_sub(self.last_sample_nanos) >= SAMPLE_INTERVAL_NANOS {
                    self.last_sample_nanos = now_nanos;
                    Some(FlushAction::SampleQueues)
                } else {
                    Some(FlushAction::DrainBuffer)
                }
            },
            (FlushAction::SampleQueues, FlushEvent::Sampled) => Some(FlushAction::DrainBuffer),
            (FlushAction::DrainBuffer, FlushEvent::Drained { empty }) => if empty {
                Some(FlushAction::FlushRecorder)
            } else {
                Some(FlushAction::AcceptFlush)
            },
            (FlushAction::AcceptFlush, FlushEvent::Accepted) => Some(FlushAction::FlushRecorder),
            (FlushAction::FlushRecorder, FlushEvent::Flushed) => Some(FlushAction::TakeRotated),
            (FlushAction::TakeRotated, FlushEvent::Rotated(rotated)) => if rotated {
                Some(FlushAction::EmitRuntimeDefs)
            } else {
                Some(FlushAction::LoadStop)
            },
            (FlushAction::EmitRuntimeDefs, FlushEvent::Emitted) => Some(FlushAction::LoadStop),
            _ => None,
        };
        match next {
            Some(action) => {
                self.action = action;
            },
            None => {},
        }
        next
    }
}

/// A stretch of the loop: the state before each event, and the state after the
/// last one.
pub open spec fn is_run(states: Seq<FlushState>, events: Seq<FlushEvent>) -> bool {
    &&& states.len() == events.len() + 1
    &&& forall|i: int|
        0 <= i < events.len() ==> #[trigger] states[i].after(events[i]) == Some(states[i + 1])
}

proof fn lemma_clock_of_samples_ascends(
    states: Seq<FlushState>,
    events: Seq<FlushEvent>,
    i: int,
    j: int,
)
    requires
        is_run(states, events),
        0 <= i <= j < states.len(),
    ensures
        states[i].last_sample_nanos <= states[j].last_sample_nanos,
    decreases j - i,
{
    if i < j {
        lemma_clock_of_samples_ascends(states, events, i, j - 1);
        assert(states[j - 1].after(events[j - 1]) == Some(states[j]));
    }
}

/// Two samples of the queues are at least the sample interval apart.
pub proof fn law_samples_are_spaced(
    states: Seq<FlushState>,
    events: Seq<FlushEvent>,
    i: int,
    j: int,
)
    requires
        is_run(states, events),
        0 <= i < j < states.len(),
        states[i].action == FlushAction::SampleQueues,
        states[j].action == FlushAction::SampleQueues,
    ensures
        states[j].last_sample_nanos - states[i].last_sample_nanos >= SAMPLE_INTERVAL_NANOS,
{
    lemma_clock_of_samples_ascends(states, events, i, j - 1);
    assert(states[j - 1].after(events[j - 1]) == Some(states[j]));
}

/// A sample is taken in every round in which it is due, and in no other.
pub proof fn law_due_samples_are_taken(
    states: Seq<FlushState>,
    events: Seq<FlushEvent>,
    i: int,
    now_nanos: u64,
)
    requires
        is_run(states, events),
        0 <= i < events.len(),
        states[i].action == FlushAction::Sleep,
        events[i] == (FlushEvent::Woke { now_nanos }),
    ensures
        states[i + 1].action == FlushAction::SampleQueues <==> states[i].due(now_nanos),
        states[i + 1].action == FlushAction::SampleQueues <==> now_nanos
            - states[i].last_sample_nanos >= SAMPLE_INTERVAL_NANOS,
        states[i + 1].action == FlushAction::SampleQueues ==> states[i + 1].last_sample_nanos
            == now_nanos,
        states[i + 1].action != FlushAction::SampleQueues ==> states[i + 1].action
            == FlushAction::DrainBuffer,
{
    assert(states[i].after(events[i]) == Some(states[i + 1]));
}

/// The thread's own buffer is drained between a sample and the flush of the
/// recorder, so that queue samples reach the collector first.
pub proof fn law_samples_are_drained_before_the_flush(
    states: Seq<FlushState>,
    events: Seq<FlushEvent>,
    i: int,
    j: int,
)
    requires
        is_run(states, events),
        0 <= i < j < states.len(),
        states[i].action == FlushAction::SampleQueues,
        states[j].action == FlushAction::FlushRecorder,
    ensures
        states[i + 1].action == FlushAction::DrainBuffer,
        i + 1 < j,
{
    assert(states[i].after(events[i]) == Some(states[i + 1]));
}

/// What was drained is handed to the collector before the recorder is flushed,
/// unless there was nothing.
pub proof fn law_drained_events_are_handed_over(
    states: Seq<FlushState>,
    events: Seq<FlushEvent>,
    i: int,
    empty: bool,
)
    requires
        is_run(states, events),
        0 <= i < events.len(),
        states[i].action == FlushAction::DrainBuffer,
        events[i] == (FlushEvent::Drained { empty }),
    ensures
        empty ==> states[i + 1].action == FlushAction::FlushRecorder,
        !empty ==> states[i + 1].action == FlushAction::AcceptFlush,
        !empty && i + 1 < events.len() ==> states[i + 2].action == FlushAction::FlushRecorder,
{
    assert(states[i].after(events[i]) == Some(states[i + 1]));
    if i + 1 < events.len() {
        assert(states[i + 1].after(events[i + 1]) == Some(states[i + 2]));
    }
}

/// The runtimes are described anew exactly when the writer has moved on to
/// another file, and before anything else is done.
pub proof fn law_every_rotation_is_described(
    states: Seq<FlushState>,
    events: Seq<FlushEvent>,
    i: int,
)
    requires
        is_run(states, events),
        0 <= i < events.len(),
    ensures
        states[i + 1].action == FlushAction::EmitRuntimeDefs <==> events[i] == FlushEvent::Rotated(
            true,
        ),
{
    assert(states[i].after(events[i]) == Some(states[i + 1]));
}

/// How many actions of a round are left, at most.
pub open spec fn actions_left(action: FlushAction) -> nat {
    match action {
        FlushAction::Sleep => 8,
        FlushAction::SampleQueues => 7,
        FlushAction::DrainBuffer => 6,
        FlushAction::AcceptFlush => 5,
        FlushAction::FlushRecorder => 4,
        FlushAction::TakeRotated => 3,
        FlushAction::EmitRuntimeDefs => 2,
        FlushAction::LoadStop => 1,
        FlushAction::Exit => 0,
    }
}

/// Once the stop flag stays set, the loop ends within the round it is in: a run
/// in which the flag never reads false is no longer than the rest of the round.
pub proof fn law_the_loop_stops(states: Seq<FlushState>, events: Seq<FlushEvent>)
    requires
        is_run(states, events),
        forall|i: int| 0 <= i < events.len() ==> events[i] != FlushEvent::StopFlag(false),
    ensures
        events.len() + actions_left(states.last().action) <= actions_left(states[0].action),
    decreases events.len(),
{
    if events.len() > 0 {
        let n = events.len() - 1;
        let shorter_states = states.drop_last();
        let shorter_events = events.drop_last();
        assert forall|i: int| 0 <= i < shorter_events.len() implies #[trigger] shorter_states[i]
            .after(shorter_events[i]) == Some(shorter_states[i + 1]) by {
            assert(states[i].after(events[i]) == Some(states[i + 1]));
        }
        law_the_loop_stops(shorter_states, shorter_events);
        assert(states[n].after(events[n]) == Some(states[n + 1]));
        assert(events[n] != FlushEvent::StopFlag(false));
    }
}

/// In every state but `Exit` there is an event that the loop takes; in `Exit`
/// there is none.
pub proof fn law_only_exit_is_final(state: FlushState)
    ensures
        state.action == FlushAction::Exit <==> forall|event: FlushEvent|
            (#[trigger] state.after(event)) is None,
{
    match state.action {
        FlushAction::LoadStop => {
            assert(state.after(FlushEvent::StopFlag(true)) is Some);
        },
        FlushAction::Sleep => {
            assert(state.after(FlushEvent::Woke { now_nanos: 0 }) is Some);
        },
        FlushAction::SampleQueues => {
            assert(state.after(FlushEvent::Sampled) is Some);
        },
        FlushAction::DrainBuffer => {
            assert(state.after(FlushEvent::Drained { empty: true }) is Some);
        },
        FlushAction::AcceptFlush => {
            assert(state.after(FlushEvent::Accepted) is Some);
        },
        FlushAction::FlushRecorder => {
            assert(state.after(FlushEvent::Flushed) is Some);
        },
        FlushAction::TakeRotated => {
            assert(state.after(FlushEvent::Rotated(true)) is Some);
        },
        FlushAction::EmitRuntimeDefs => {
            assert(state.after(FlushEvent::Emitted) is Some);
        },
        FlushAction::Exit => {},
    }
}

/// A round that has begun flushes the recorder before the loop ends.
pub proof fn law_a_round_flushes_before_exit(
    states: Seq<FlushState>,
    events: Seq<FlushEvent>,
    i: int,
    j: int,
)
    requires
        is_run(states, events),
        0 <= i < j < states.len(),
        states[i].action == FlushAction::Sleep,
        states[j].action == FlushAction::Exit,
    ensures
        exists|k: int| i < k < j && (#[trigger] states[k]).action == FlushAction::FlushRecorder,
{
    lemma_flush_lies_between(states, events, i, j);
}

/// After a sleep, the loop is either still short of the flush or has passed it.
proof fn lemma_flush_lies_between(
    states: Seq<FlushState>,
    events: Seq<FlushEvent>,
    i: int,
    j: int,
)
    requires
        is_run(states, events),
        0 <= i <= j < states.len(),
        states[i].action == FlushAction::Sleep,
    ensures
        (exists|k: int| i < k < j && (#[trigger] states[k]).action == FlushAction::FlushRecorder)
            || actions_left(states[j].action) >= 4,
    decreases j - i,
{
    if i < j {
        lemma_flush_lies_between(states, events, i, j - 1);
        assert(states[j - 1].after(events[j - 1]) == Some(states[j]));
        if actions_left(states[j - 1].action) >= 4 && actions_left(states[j].action) < 4 {
            assert(states[j - 1].action == FlushAction::FlushRecorder);
        } else if actions_left(states[j - 1].action) < 4 {
            let k = choose|k: int|
                i < k < j - 1 && (#[trigger] states[k]).action == FlushAction::FlushRecorder;
            assert(states[k].action == FlushAction::FlushRecorder);
        }
    }
}

/// Whenever the thread wakes up, the queues are sampled if and only if the last
/// sample lies at least the interval back, and this wake-up is then the last
/// sample. Otherwise the buffer is drained, and the last sample stays. The
/// interval is 10 ms, and two sleeps last as long.
pub proof fn law_a_wakeup_samples_after_the_interval(state: FlushState, now_nanos: u64)
    requires
        state.action == FlushAction::Sleep,
    ensures
        now_nanos - state.last_sample_nanos >= SAMPLE_INTERVAL_NANOS <==> state.after(
            FlushEvent::Woke { now_nanos },
        ) == Some(FlushState { action: FlushAction::SampleQueues, last_sample_nanos: now_nanos }),
        now_nanos - state.last_sample_nanos < SAMPLE_INTERVAL_NANOS <==> state.after(
            FlushEvent::Woke { now_nanos },
        ) == Some(
            FlushState {
                action: FlushAction::DrainBuffer,
                last_sample_nanos: state.last_sample_nanos,
            },
        ),
        state.due(now_nanos) <==> now_nanos - state.last_sample_nanos >= SAMPLE_INTERVAL_NANOS,
        SAMPLE_INTERVAL_NANOS == 10_000_000,
        SAMPLE_INTERVAL_NANOS == 2 * FLUSH_SLEEP_MILLIS * 1_000_000,
{
}

/// Only the answer to the pending action is taken, and it is taken whatever it
/// says and whatever the time.
pub proof fn law_every_answer_is_taken(state: FlushState, event: FlushEvent)
    ensures
        state.after(event) is Some <==> {
            ||| state.action is LoadStop && event is StopFlag
            ||| state.action is Sleep && event is Woke
            ||| state.action is SampleQueues && event is Sampled
            ||| state.action is DrainBuffer && event is Drained
            ||| state.action is AcceptFlush && event is Accepted
            ||| state.action is FlushRecorder && event is Flushed
            ||| state.action is TakeRotated && event is Rotated
            ||| state.action is EmitRuntimeDefs && event is Emitted
        },
{
}

/// Every action is reached by its own events, and by no others. Nothing but a
/// wake-up that leads to a sample moves the time of the last sample.
pub proof fn law_every_action_has_its_reasons(
    state: FlushState,
    event: FlushEvent,
    next: FlushState,
)
    requires
        state.after(event) == Some(next),
    ensures
        next.action is Exit <==> event == FlushEvent::StopFlag(true),
        next.action is Sleep <==> event == FlushEvent::StopFlag(false),
        next.action is SampleQueues <==> (event matches FlushEvent::Woke { now_nanos } && now_nanos
            - state.last_sample_nanos >= SAMPLE_INTERVAL_NANOS),
        next.action is DrainBuffer <==> event is Sampled || (event matches FlushEvent::Woke {
            now_nanos,
        } && now_nanos - state.last_sample_nanos < SAMPLE_INTERVAL_NANOS),
        next.action is AcceptFlush <==> event == (FlushEvent::Drained { empty: false }),
        next.action is FlushRecorder <==> event is Accepted || event == (FlushEvent::Drained {
            empty: true,
        }),
        next.action is TakeRotated <==> event is Flushed,
        next.action is EmitRuntimeDefs <==> event == FlushEvent::Rotated(true),
        next.action is LoadStop <==> event is Emitted || event == FlushEvent::Rotated(false),
        next.action is SampleQueues ==> event == (FlushEvent::Woke {
            now_nanos: next.last_sample_nanos,
        }),
        !(next.action is SampleQueues) ==> next.last_sample_nanos == state.last_sample_nanos,
{
}

} // verus!
