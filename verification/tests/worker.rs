use route_bridge::worker::next_step;
use route_bridge::{ControlMessage, Worker, WorkerAction, WorkerConfig, WorkerEvent, WorkerState};

const STOP: WorkerEvent = WorkerEvent::Message(ControlMessage::Stop);

fn config() -> WorkerConfig {
    WorkerConfig::new(250, 4000).unwrap()
}

fn all_states() -> Vec<WorkerState> {
    vec![
        WorkerState::Connecting,
        WorkerState::Polling,
        WorkerState::Retrying,
        WorkerState::Stopping,
        WorkerState::Stopped,
    ]
}

fn live_states() -> Vec<WorkerState> {
    vec![WorkerState::Connecting, WorkerState::Polling, WorkerState::Retrying]
}

fn all_events() -> Vec<WorkerEvent> {
    vec![
        WorkerEvent::Connected,
        WorkerEvent::TransientError,
        WorkerEvent::TerminalError,
        WorkerEvent::Sampled,
        WorkerEvent::Recorded,
        WorkerEvent::WaitElapsed,
        STOP,
        WorkerEvent::Released,
    ]
}

#[test]
fn config_keeps_its_delays() {
    let config = WorkerConfig::new(250, 4000).unwrap();
    assert_eq!(config.poll_interval_ms(), 250);
    assert_eq!(config.retry_delay_ms(), 4000);
    let smallest = WorkerConfig::new(1, 1).unwrap();
    assert_eq!(smallest.poll_interval_ms(), 1);
    assert_eq!(smallest.retry_delay_ms(), 1);
    let largest = WorkerConfig::new(u64::MAX, u64::MAX).unwrap();
    assert_eq!(largest.poll_interval_ms(), u64::MAX);
}

#[test]
fn config_refuses_a_zero_delay() {
    assert!(WorkerConfig::new(0, 4000).is_none());
    assert!(WorkerConfig::new(250, 0).is_none());
    assert!(WorkerConfig::new(0, 0).is_none());
}

#[test]
fn worker_starts_by_connecting() {
    let (worker, first) = Worker::new(config());
    assert_eq!(worker.state(), WorkerState::Connecting);
    assert_eq!(first, WorkerAction::Connect);
    assert_eq!(worker.config(), config());
    assert!(!worker.is_stopped());
}

#[test]
fn worker_polls_in_a_cycle() {
    let (mut worker, _) = Worker::new(config());
    assert_eq!(worker.on_event(WorkerEvent::Connected), WorkerAction::Sample);
    assert_eq!(worker.state(), WorkerState::Polling);
    for _ in 0..3 {
        assert_eq!(worker.on_event(WorkerEvent::Sampled), WorkerAction::Record);
        assert_eq!(worker.on_event(WorkerEvent::Recorded), WorkerAction::Wait { millis: 250 });
        assert_eq!(worker.on_event(WorkerEvent::WaitElapsed), WorkerAction::Sample);
        assert_eq!(worker.state(), WorkerState::Polling);
    }
}

#[test]
fn failed_connect_waits_and_tries_again() {
    let (mut worker, _) = Worker::new(config());
    assert_eq!(worker.on_event(WorkerEvent::TransientError), WorkerAction::Wait { millis: 4000 });
    assert_eq!(worker.state(), WorkerState::Retrying);
    assert_eq!(worker.on_event(WorkerEvent::WaitElapsed), WorkerAction::Connect);
    assert_eq!(worker.state(), WorkerState::Connecting);
    assert_eq!(worker.on_event(WorkerEvent::TransientError), WorkerAction::Wait { millis: 4000 });
    assert_eq!(worker.on_event(WorkerEvent::WaitElapsed), WorkerAction::Connect);
    assert_eq!(worker.on_event(WorkerEvent::Connected), WorkerAction::Sample);
    assert_eq!(worker.state(), WorkerState::Polling);
}

#[test]
fn failed_sample_goes_back_to_connecting() {
    let (mut worker, _) = Worker::new(config());
    worker.on_event(WorkerEvent::Connected);
    assert_eq!(worker.on_event(WorkerEvent::TransientError), WorkerAction::Wait { millis: 4000 });
    assert_eq!(worker.state(), WorkerState::Retrying);
    assert_eq!(worker.on_event(WorkerEvent::WaitElapsed), WorkerAction::Connect);
    assert_eq!(worker.state(), WorkerState::Connecting);
}

#[test]
fn stop_while_polling_releases_and_exits() {
    let (mut worker, _) = Worker::new(config());
    worker.on_event(WorkerEvent::Connected);
    worker.on_event(WorkerEvent::Sampled);
    worker.on_event(WorkerEvent::Recorded);
    assert_eq!(worker.on_event(STOP), WorkerAction::Release);
    assert_eq!(worker.state(), WorkerState::Stopping);
    assert!(!worker.is_stopped());
    assert_eq!(worker.on_event(WorkerEvent::Released), WorkerAction::Exit);
    assert_eq!(worker.state(), WorkerState::Stopped);
    assert!(worker.is_stopped());
}

#[test]
fn stop_while_retrying_is_not_held_up() {
    let (mut worker, _) = Worker::new(config());
    worker.on_event(WorkerEvent::TransientError);
    assert_eq!(worker.state(), WorkerState::Retrying);
    assert_eq!(worker.on_event(STOP), WorkerAction::Release);
    assert_eq!(worker.state(), WorkerState::Stopping);
}

#[test]
fn stop_ends_every_live_state() {
    for state in live_states() {
        assert_eq!(
            next_step(state, config(), STOP),
            (WorkerState::Stopping, WorkerAction::Release)
        );
    }
}

#[test]
fn terminal_error_ends_every_live_state() {
    for state in live_states() {
        assert_eq!(
            next_step(state, config(), WorkerEvent::TerminalError),
            (WorkerState::Stopping, WorkerAction::Release)
        );
    }
}

#[test]
fn stop_twice_is_stop_once() {
    for state in all_states() {
        let (mut current, _) = next_step(state, config(), STOP);
        assert!(current == WorkerState::Stopping || current == WorkerState::Stopped);
        for _ in 0..4 {
            let (next, action) = next_step(current, config(), STOP);
            assert_eq!(next, WorkerState::Stopped);
            assert_eq!(action, WorkerAction::Exit);
            current = next;
        }
    }
}

#[test]
fn stopped_is_final() {
    for event in all_events() {
        assert_eq!(
            next_step(WorkerState::Stopped, config(), event),
            (WorkerState::Stopped, WorkerAction::Exit)
        );
        assert_eq!(
            next_step(WorkerState::Stopping, config(), event),
            (WorkerState::Stopped, WorkerAction::Exit)
        );
    }
}

#[test]
fn release_comes_at_most_once_in_any_run_of_three() {
    let events = all_events();
    for state in all_states() {
        for a in &events {
            for b in &events {
                for c in &events {
                    let mut current = state;
                    let mut releases = 0;
                    let mut stopped_seen = false;
                    for event in [*a, *b, *c] {
                        let (next, action) = next_step(current, config(), event);
                        if stopped_seen {
                            assert_eq!(action, WorkerAction::Exit);
                        }
                        if action == WorkerAction::Release {
                            releases += 1;
                        }
                        if event == STOP {
                            stopped_seen = true;
                        }
                        current = next;
                    }
                    assert!(releases <= 1);
                    let live = live_states().contains(&state);
                    if live && stopped_seen {
                        assert_eq!(releases, 1);
                    }
                    if !live {
                        assert_eq!(releases, 0);
                    }
                }
            }
        }
    }
}

#[test]
fn record_answers_only_a_sample_while_polling() {
    for state in all_states() {
        for event in all_events() {
            let (_, action) = next_step(state, config(), event);
            let expected = state == WorkerState::Polling && event == WorkerEvent::Sampled;
            assert_eq!(action == WorkerAction::Record, expected);
        }
    }
}

#[test]
fn waits_are_one_of_the_two_delays() {
    for state in all_states() {
        for event in all_events() {
            if let (_, WorkerAction::Wait { millis }) = next_step(state, config(), event) {
                assert!(millis == 250 || millis == 4000);
                assert!(millis >= 1);
            }
        }
    }
}

#[test]
fn stray_observations_take_up_the_work_of_the_state() {
    let cfg = config();
    assert_eq!(
        next_step(WorkerState::Connecting, cfg, WorkerEvent::Sampled),
        (WorkerState::Connecting, WorkerAction::Connect)
    );
    assert_eq!(
        next_step(WorkerState::Connecting, cfg, WorkerEvent::WaitElapsed),
        (WorkerState::Connecting, WorkerAction::Connect)
    );
    assert_eq!(
        next_step(WorkerState::Polling, cfg, WorkerEvent::Connected),
        (WorkerState::Polling, WorkerAction::Wait { millis: 250 })
    );
    assert_eq!(
        next_step(WorkerState::Polling, cfg, WorkerEvent::Released),
        (WorkerState::Polling, WorkerAction::Wait { millis: 250 })
    );
    assert_eq!(
        next_step(WorkerState::Retrying, cfg, WorkerEvent::Sampled),
        (WorkerState::Retrying, WorkerAction::Wait { millis: 4000 })
    );
    assert_eq!(
        next_step(WorkerState::Retrying, cfg, WorkerEvent::Connected),
        (WorkerState::Retrying, WorkerAction::Wait { millis: 4000 })
    );
}

#[test]
fn on_event_agrees_with_next_step() {
    for first in all_events() {
        for second in all_events() {
            let (mut worker, _) = Worker::new(config());
            let (state_one, action_one) = next_step(WorkerState::Connecting, config(), first);
            assert_eq!(worker.on_event(first), action_one);
            assert_eq!(worker.state(), state_one);
            let (state_two, action_two) = next_step(state_one, config(), second);
            assert_eq!(worker.on_event(second), action_two);
            assert_eq!(worker.state(), state_two);
            assert_eq!(worker.config(), config());
        }
    }
}
