use traced_runtime_group::flush::{
    FlushAction, FlushEvent, FlushState, FLUSH_SLEEP_MILLIS, SAMPLE_INTERVAL_NANOS,
};

fn run(state: &mut FlushState, events: &[FlushEvent]) -> Vec<FlushAction> {
    events.iter().map(|e| state.step(*e).unwrap()).collect()
}

#[test]
fn a_round_without_a_sample() {
    let mut state = FlushState::start(1_000);
    assert_eq!(state.action, FlushAction::LoadStop);
    let actions = run(
        &mut state,
        &[
            FlushEvent::StopFlag(false),
            FlushEvent::Woke { now_nanos: 10_000_999 },
            FlushEvent::Drained { empty: true },
            FlushEvent::Flushed,
            FlushEvent::Rotated(false),
        ],
    );
    assert_eq!(
        actions,
        vec![
            FlushAction::Sleep,
            FlushAction::DrainBuffer,
            FlushAction::FlushRecorder,
            FlushAction::TakeRotated,
            FlushAction::LoadStop,
        ]
    );
    assert_eq!(state.last_sample_nanos, 1_000);
}

#[test]
fn a_round_with_a_sample_and_a_rotation() {
    let mut state = FlushState::start(1_000);
    let actions = run(
        &mut state,
        &[
            FlushEvent::StopFlag(false),
            FlushEvent::Woke { now_nanos: 10_001_000 },
            FlushEvent::Sampled,
            FlushEvent::Drained { empty: false },
            FlushEvent::Accepted,
            FlushEvent::Flushed,
            FlushEvent::Rotated(true),
            FlushEvent::Emitted,
        ],
    );
    assert_eq!(
        actions,
        vec![
            FlushAction::Sleep,
            FlushAction::SampleQueues,
            FlushAction::DrainBuffer,
            FlushAction::AcceptFlush,
            FlushAction::FlushRecorder,
            FlushAction::TakeRotated,
            FlushAction::EmitRuntimeDefs,
            FlushAction::LoadStop,
        ]
    );
    assert_eq!(state.last_sample_nanos, 10_001_000);
}

#[test]
fn samples_keep_their_distance() {
    let mut state = FlushState::start(0);
    let mut samples = Vec::new();
    for round in 1..=6u64 {
        let now_nanos = round * FLUSH_SLEEP_MILLIS * 1_000_000;
        state.step(FlushEvent::StopFlag(false)).unwrap();
        if state.step(FlushEvent::Woke { now_nanos }) == Some(FlushAction::SampleQueues) {
            samples.push(now_nanos);
            state.step(FlushEvent::Sampled).unwrap();
        }
        run(
            &mut state,
            &[
                FlushEvent::Drained { empty: true },
                FlushEvent::Flushed,
                FlushEvent::Rotated(false),
            ],
        );
    }
    assert_eq!(SAMPLE_INTERVAL_NANOS, 10_000_000);
    assert_eq!(samples, vec![10_000_000, 20_000_000, 30_000_000]);
}

#[test]
fn a_clock_behind_the_last_sample_takes_none() {
    let mut state = FlushState::start(50);
    state.step(FlushEvent::StopFlag(false)).unwrap();
    assert_eq!(
        state.step(FlushEvent::Woke { now_nanos: 10 }),
        Some(FlushAction::DrainBuffer)
    );
}

#[test]
fn the_stop_flag_ends_the_loop() {
    let mut state = FlushState::start(0);
    assert_eq!(
        state.step(FlushEvent::StopFlag(true)),
        Some(FlushAction::Exit)
    );
    assert_eq!(state.step(FlushEvent::StopFlag(false)), None);
    assert_eq!(state.action, FlushAction::Exit);
}

#[test]
fn answers_to_other_actions_are_not_taken() {
    let mut state = FlushState::start(0);
    let before = state;
    assert_eq!(state.step(FlushEvent::Flushed), None);
    assert_eq!(state.step(FlushEvent::Rotated(true)), None);
    assert_eq!(state, before);
}
