//! The decisions of the polling worker.
//!
//! The worker is a loop around a device: it attaches to the device, samples
//! it at a fixed interval, records each sample in the route, and waits for a
//! control message between two samples. What the loop does next is decided
//! here, by [`transition`], from the state of the worker and from what the
//! loop last observed. The loop itself performs the [`WorkerAction`] it is
//! handed and reports back what came of it.

use vstd::prelude::*;
use crate::control::ControlMessage;

verus! {

/// Where the worker stands.
#[derive(Clone, Copy, Debug, PartialEq, Eq, Structural)]
pub enum WorkerState {
    /// Attaching to the device.
    Connecting,
    /// Attached: sampling, recording and waiting in turn.
    Polling,
    /// Not attached after a failure: waiting before the next attempt.
    Retrying,
    /// Told to end: releasing the device.
    Stopping,
    /// Ended. Nothing follows.
    Stopped,
}

/// What the loop observed when it carried out the last action.
#[derive(Clone, Copy, Debug, PartialEq, Eq, Structural)]
pub enum WorkerEvent {
    /// The device is attached.
    Connected,
    /// The device did not answer or answered with an error that may pass.
    TransientError,
    /// The device is gone for good.
    TerminalError,
    /// The device handed over a sample.
    Sampled,
    /// The sample was appended to the route.
    Recorded,
    /// The wait ended and no control message had come.
    WaitElapsed,
    /// A control message came.
    Message(ControlMessage),
    /// The device was released.
    Released,
}

/// What the loop is to do next.
#[derive(Clone, Copy, Debug, PartialEq, Eq, Structural)]
pub enum WorkerAction {
    /// Try to attach to the device; report `Connected`, `TransientError` or
    /// `TerminalError`.
    Connect,
    /// Read the device's state; report `Sampled`, `TransientError` or
    /// `TerminalError`.
    Sample,
    /// Append the sample just read to the route, holding the route's lock for
    /// that instant only; report `Recorded`.
    Record,
    /// Wait for a control message, for `millis` milliseconds at most; report
    /// `Message` or `WaitElapsed`.
    Wait { millis: u64 },
    /// Release the device; report `Released`.
    Release,
    /// Leave the loop.
    Exit,
}

/// The two delays of the worker, in milliseconds.
#[derive(Clone, Copy, Debug, PartialEq, Eq, Structural)]
pub struct WorkerConfig {
    poll_interval_ms: u64,
    retry_delay_ms: u64,
}

impl WorkerConfig {
    /// The time between two samples.
    pub closed spec fn poll_interval(self) -> u64 {
        self.poll_interval_ms
    }

    /// The time between a failure and the next attempt to attach.
    pub closed spec fn retry_delay(self) -> u64 {
        self.retry_delay_ms
    }

    /// Neither delay is zero, so the worker never spins.
    pub open spec fn wf(self) -> bool {
        self.poll_interval() >= 1 && self.retry_delay() >= 1
    }

    /// A configuration with the two delays, or `None` if one of them is zero.
    pub fn new(poll_interval_ms: u64, retry_delay_ms: u64) -> (config: Option<Self>)
        ensures
            config.is_some() <==> (poll_interval_ms >= 1 && retry_delay_ms >= 1),
            config matches Some(c) ==> c.wf() && c.poll_interval() == poll_interval_ms
                && c.retry_delay() == retry_delay_ms,
    {
        if poll_interval_ms == 0 || retry_delay_ms == 0 {
            None
        } else {
            Some(WorkerConfig { poll_interval_ms, retry_delay_ms })
        }
    }

    /// The time between two samples, in milliseconds.
    pub fn poll_interval_ms(&self) -> (millis: u64)
        ensures
            millis == self.poll_interval(),
    {
        self.poll_interval_ms
    }

    /// The time between a failure and the next attempt, in milliseconds.
    pub fn retry_delay_ms(&self) -> (millis: u64)
        ensures
            millis == self.retry_delay(),
    {
        self.retry_delay_ms
    }
}

/// The worker has not been told to end and has not lost its device for good.
pub open spec fn is_live(state: WorkerState) -> bool {
    state is Connecting || state is Polling || state is Retrying
}

/// What a live worker does when an observation does not belong to its state:
/// it takes up the work of that state again.
pub open spec fn resume(state: WorkerState, config: WorkerConfig) -> WorkerAction {
    match state {
        WorkerState::Connecting => WorkerAction::Connect,
        WorkerState::Polling => WorkerAction::Wait { millis: config.poll_interval() },
        WorkerState::Retrying => WorkerAction::Wait { millis: config.retry_delay() },
        WorkerState::Stopping => WorkerAction::Exit,
        WorkerState::Stopped => WorkerAction::Exit,
    }
}

/// The state that follows `state` on `event`, and the action to carry out.
///
/// A stop message or a terminal error ends a live worker whatever it was
/// doing. A transient error sends it to `Retrying`, where it waits before it
/// attaches again. Once the worker is `Stopping` it becomes `Stopped` on the
/// next observation, and `Stopped` is final.
pub open spec fn transition(state: WorkerState, config: WorkerConfig, event: WorkerEvent) -> (
    WorkerState,
    WorkerAction,
) {
    if !is_live(state) {
        (WorkerState::Stopped, WorkerAction::Exit)
    } else {
        match event {
            WorkerEvent::Message(ControlMessage::Stop) => (
                WorkerState::Stopping,
                WorkerAction::Release,
            ),
            WorkerEvent::TerminalError => (WorkerState::Stopping, WorkerAction::Release),
            WorkerEvent::TransientError => (
                WorkerState::Retrying,
                WorkerAction::Wait { millis: config.retry_delay() },
            ),
            WorkerEvent::Connected => if state is Connecting {
                (WorkerState::Polling, WorkerAction::Sample)
            } else {
                (state, resume(state, config))
            },
            WorkerEvent::Sampled => if state is Polling {
                (WorkerState::Polling, WorkerAction::Record)
            } else {
                (state, resume(state, config))
            },
            WorkerEvent::Recorded => (state, resume(state, config)),
            WorkerEvent::WaitElapsed => match state {
                WorkerState::Polling => (WorkerState::Polling, WorkerAction::Sample),
                WorkerState::Retrying => (WorkerState::Connecting, WorkerAction::Connect),
                _ => (state, resume(state, config)),
            },
            WorkerEvent::Released => (state, resume(state, config)),
        }
    }
}

/// The state of a worker that started in `state` and observed `events`.
pub open spec fn state_after(state: WorkerState, config: WorkerConfig, events: Seq<WorkerEvent>)
    -> WorkerState
    decreases events.len(),
{
    if events.len() == 0 {
        state
    } else {
        transition(state_after(state, config, events.drop_last()), config, events.last()).0
    }
}

/// The action that the worker answered to the observation at position `i`.
pub open spec fn action_at(
    state: WorkerState,
    config: WorkerConfig,
    events: Seq<WorkerEvent>,
    i: int,
) -> WorkerAction {
    transition(state_after(state, config, events.take(i)), config, events[i]).1
}

/// A stop message ends a live worker at once, whatever it was doing, and the
/// worker answers it by releasing the device.
pub proof fn lemma_stop_takes_priority(state: WorkerState, config: WorkerConfig)
    requires
        is_live(state),
    ensures
        transition(state, config, WorkerEvent::Message(ControlMessage::Stop)) == (
            WorkerState::Stopping,
            WorkerAction::Release,
        ),
{
}

/// A second stop message changes nothing: whatever the state, after one stop
/// message the next one is answered with `Exit` and leaves the worker
/// `Stopped`, and so does every stop message after it.
pub proof fn lemma_stop_twice_is_stop_once(state: WorkerState, config: WorkerConfig)
    ensures
        ({
            let stop = WorkerEvent::Message(ControlMessage::Stop);
            let once = transition(state, config, stop).0;
            let twice = transition(once, config, stop);
            &&& !is_live(once)
            &&& twice == (WorkerState::Stopped, WorkerAction::Exit)
            &&& transition(twice.0, config, stop) == twice
        }),
{
}

/// The worker waits for one of its two delays and for nothing else, so with
/// a well-formed configuration no wait is empty and none is longer than the
/// longer delay.
pub proof fn lemma_waits_are_bounded(state: WorkerState, config: WorkerConfig, event: WorkerEvent)
    requires
        config.wf(),
    ensures
        transition(state, config, event).1 matches WorkerAction::Wait { millis } ==> {
            &&& millis >= 1
            &&& millis == config.poll_interval() || millis == config.retry_delay()
        },
{
}

/// A sample is recorded only in answer to a sample that the device handed
/// over while the worker was polling.
pub proof fn lemma_records_only_fresh_samples(
    state: WorkerState,
    config: WorkerConfig,
    event: WorkerEvent,
)
    ensures
        transition(state, config, event).1 is Record <==> (state is Polling
            && event is Sampled),
{
}

/// The states of a run do not depend on how the run is cut: the state after
/// the first `i + 1` observations follows the state after the first `i` by
/// one transition.
proof fn lemma_state_after_step(
    state: WorkerState,
    config: WorkerConfig,
    events: Seq<WorkerEvent>,
    i: int,
)
    requires
        0 <= i < events.len(),
    ensures
        state_after(state, config, events.take(i + 1)) == transition(
            state_after(state, config, events.take(i)),
            config,
            events[i],
        ).0,
{
    assert(events.take(i + 1).drop_last() =~= events.take(i));
    assert(events.take(i + 1).last() == events[i]);
}

/// A worker that is no longer live never becomes live again.
pub proof fn lemma_ended_stays_ended(
    state: WorkerState,
    config: WorkerConfig,
    events: Seq<WorkerEvent>,
    i: int,
    j: int,
)
    requires
        0 <= i <= j <= events.len(),
        !is_live(state_after(state, config, events.take(i))),
    ensures
        !is_live(state_after(state, config, events.take(j))),
    decreases j - i,
{
    if i < j {
        lemma_ended_stays_ended(state, config, events, i, j - 1);
        lemma_state_after_step(state, config, events, j - 1);
    }
}

/// The worker releases its device at most once in a run, whatever it
/// observes and however often it is told to stop.
pub proof fn lemma_releases_at_most_once(
    state: WorkerState,
    config: WorkerConfig,
    events: Seq<WorkerEvent>,
    i: int,
    j: int,
)
    requires
        0 <= i < j < events.len(),
        action_at(state, config, events, i) is Release,
    ensures
        !(action_at(state, config, events, j) is Release),
{
    lemma_state_after_step(state, config, events, i);
    lemma_ended_stays_ended(state, config, events, i + 1, j);
}

/// A live worker that is sent a stop message releases its device exactly
/// once: at the stop message or before it, and never again.
pub proof fn lemma_stop_releases_exactly_once(
    state: WorkerState,
    config: WorkerConfig,
    events: Seq<WorkerEvent>,
    stop: int,
)
    requires
        is_live(state),
        0 <= stop < events.len(),
        events[stop] == WorkerEvent::Message(ControlMessage::Stop),
    ensures
        exists|i: int|
            0 <= i <= stop && #[trigger] action_at(state, config, events, i) is Release
                && forall|j: int|
                0 <= j < events.len() && j != i ==> !(#[trigger] action_at(
                    state,
                    config,
                    events,
                    j,
                ) is Release),
{
    let i = first_release(state, config, events, stop);
    assert forall|j: int| 0 <= j < events.len() && j != i implies !(#[trigger] action_at(
        state,
        config,
        events,
        j,
    ) is Release) by {
        if j < i {
            if action_at(state, config, events, j) is Release {
                lemma_releases_at_most_once(state, config, events, j, i);
            }
        } else {
            lemma_releases_at_most_once(state, config, events, i, j);
        }
    }
}

/// The position, at `stop` or before it, at which a live worker that is sent
/// a stop message at `stop` releases its device.
proof fn first_release(
    state: WorkerState,
    config: WorkerConfig,
    events: Seq<WorkerEvent>,
    stop: int,
) -> (i: int)
    requires
        is_live(state),
        0 <= stop < events.len(),
        events[stop] == WorkerEvent::Message(ControlMessage::Stop),
    ensures
        0 <= i <= stop,
        action_at(state, config, events, i) is Release,
{
    let before = state_after(state, config, events.take(stop));
    if is_live(before) {
        stop
    } else {
        // The worker ended before the stop message came; since it began live,
        // an earlier observation ended it, and the answer to that one was
        // the release.
        let k = last_live(state, config, events, stop);
        lemma_state_after_step(state, config, events, k);
        k
    }
}

/// Before a position at which the worker is no longer live, the last
/// position at which it still was.
proof fn last_live(
    state: WorkerState,
    config: WorkerConfig,
    events: Seq<WorkerEvent>,
    n: int,
) -> (k: int)
    requires
        is_live(state),
        0 <= n <= events.len(),
        !is_live(state_after(state, config, events.take(n))),
    ensures
        0 <= k < n,
        is_live(state_after(state, config, events.take(k))),
        !is_live(state_after(state, config, events.take(k + 1))),
    decreases n,
{
    if n == 0 {
        assert(events.take(0) =~= Seq::<WorkerEvent>::empty());
        0
    } else if is_live(state_after(state, config, events.take(n - 1))) {
        n - 1
    } else {
        last_live(state, config, events, n - 1)
    }
}

/// Once the worker has observed a stop message, it records nothing more:
/// every later observation is answered with `Exit`.
pub proof fn lemma_nothing_recorded_after_stop(
    state: WorkerState,
    config: WorkerConfig,
    events: Seq<WorkerEvent>,
    stop: int,
    later: int,
)
    requires
        0 <= stop < later < events.len(),
        events[stop] == WorkerEvent::Message(ControlMessage::Stop),
    ensures
        action_at(state, config, events, later) == WorkerAction::Exit,
{
    lemma_state_after_step(state, config, events, stop);
    lemma_ended_stays_ended(state, config, events, stop + 1, later);
}

/// The polling worker: its state and its delays.
pub struct Worker {
    state: WorkerState,
    config: WorkerConfig,
}

impl Worker {
    /// Where the worker stands.
    pub closed spec fn spec_state(&self) -> WorkerState {
        self.state
    }

    /// The delays the worker was made with.
    pub closed spec fn spec_config(&self) -> WorkerConfig {
        self.config
    }

    /// A worker that is about to attach to its device, and its first action.
    pub fn new(config: WorkerConfig) -> (started: (Self, WorkerAction))
        ensures
            started.0.spec_state() == WorkerState::Connecting,
            started.0.spec_config() == config,
            started.1 == WorkerAction::Connect,
    {
        (Worker { state: WorkerState::Connecting, config }, WorkerAction::Connect)
    }

    /// Where the worker stands.
    pub fn state(&self) -> (state: WorkerState)
        ensures
            state == self.spec_state(),
    {
        self.state
    }

    /// The delays the worker was made with.
    pub fn config(&self) -> (config: WorkerConfig)
        ensures
            config == self.spec_config(),
    {
        self.config
    }

    /// Whether the worker has ended.
    pub fn is_stopped(&self) -> (stopped: bool)
        ensures
            stopped <==> self.spec_state() is Stopped,
    {
        matches!(self.state, WorkerState::Stopped)
    }

    /// Takes in what the loop observed, moves to the next state and returns
    /// the action to carry out, both as [`transition`] gives them.
    pub fn on_event(&mut self, event: WorkerEvent) -> (action: WorkerAction)
        ensures
            (final(self).spec_state(), action) == transition(
                old(self).spec_state(),
                old(self).spec_config(),
                event,
            ),
            final(self).spec_config() == old(self).spec_config(),
    {
        let (next, action) = next_step(self.state, self.config, event);
        self.state = next;
        action
    }
}

/// What [`resume`] describes, for a live state.
fn resume_action(state: WorkerState, config: WorkerConfig) -> (action: WorkerAction)
    ensures
        action == resume(state, config),
{
    match state {
        WorkerState::Connecting => WorkerAction::Connect,
        WorkerState::Polling => WorkerAction::Wait { millis: config.poll_interval_ms },
        WorkerState::Retrying => WorkerAction::Wait { millis: config.retry_delay_ms },
        WorkerState::Stopping => WorkerAction::Exit,
        WorkerState::Stopped => WorkerAction::Exit,
    }
}

/// The next state and the action to carry out, as [`transition`] gives them.
pub fn next_step(state: WorkerState, config: WorkerConfig, event: WorkerEvent) -> (step: (
    WorkerState,
    WorkerAction,
))
    ensures
        step == transition(state, config, event),
{
    match state {
        WorkerState::Stopping | WorkerState::Stopped => (WorkerState::Stopped, WorkerAction::Exit),
        _ => match event {
            WorkerEvent::Message(ControlMessage::Stop) | WorkerEvent::TerminalError => (
                WorkerState::Stopping,
                WorkerAction::Release,
            ),
            WorkerEvent::TransientError => (
                WorkerState::Retrying,
                WorkerAction::Wait { millis: config.retry_delay_ms },
            ),
            WorkerEvent::Connected => match state {
                WorkerState::Connecting => (WorkerState::Polling, WorkerAction::Sample),
                _ => (state, resume_action(state, config)),
            },
            WorkerEvent::Sampled => match state {
                WorkerState::Polling => (WorkerState::Polling, WorkerAction::Record),
                _ => (state, resume_action(state, config)),
            },
            WorkerEvent::WaitElapsed => match state {
                WorkerState::Polling => (WorkerState::Polling, WorkerAction::Sample),
                WorkerState::Retrying => (WorkerState::Connecting, WorkerAction::Connect),
                _ => (state, resume_action(state, config)),
            },
            WorkerEvent::Recorded | WorkerEvent::Released => (state, resume_action(state, config)),
        },
    }
}

} // verus!
