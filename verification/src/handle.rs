//! The one object that the worker and the serving side share.

use std::sync::mpsc::{SendError, Sender};
use std::sync::Arc;
use vstd::prelude::*;
use vstd::rwlock::{RwLock, RwLockPredicate};
use crate::control::ControlMessage;
use crate::point::PositionPoint;
use crate::route::{next_id, Route, RouteView};

verus! {

/// The sending end of a channel of the standard library. Nothing is known of
/// what is inside; the handle only carries it and sends through it.
#[verifier::external_type_specification]
#[verifier::external_body]
#[verifier::reject_recursive_types(T)]
pub struct ExSender<T>(Sender<T>);

/// What a channel of the standard library hands back when a message could
/// not be sent: the message itself. Nothing is known of what is inside.
#[verifier::external_type_specification]
#[verifier::external_body]
#[verifier::reject_recursive_types(T)]
pub struct ExSendError<T>(SendError<T>);

/// What the lock around the route admits: well-formed routes only.
pub struct WellFormed;

impl<S> RwLockPredicate<Route<S>> for WellFormed {
    open spec fn inv(self, route: Route<S>) -> bool {
        route.wf()
    }
}

/// `Sender::send`: puts `message` on the channel without blocking. Whether
/// that succeeds depends on whether the receiving end still exists, so
/// nothing is said of the outcome.
#[verifier::external_body]
fn send_message(sender: &Sender<ControlMessage>, message: ControlMessage) -> (outcome: Result<
    (),
    SendError<ControlMessage>,
>) {
    sender.send(message)
}

/// `Sender::clone`: another sending end of the same channel.
#[verifier::external_body]
fn clone_sender(sender: &Sender<ControlMessage>) -> (copy: Sender<ControlMessage>) {
    sender.clone()
}

/// `Arc::clone`: another pointer to the same lock.
#[verifier::external_body]
fn share_lock<S>(lock: &Arc<RwLock<Route<S>, WellFormed>>) -> (shared: Arc<
    RwLock<Route<S>, WellFormed>,
>)
    ensures
        shared == *lock,
{
    Arc::clone(lock)
}

/// `(id, points)` is what some well-formed route answers to a reader that
/// holds `known_count` points: the id and the points were read from one and
/// the same state of the route.
pub open spec fn is_diff_of_one_state<S>(
    id: u64,
    points: Seq<PositionPoint<S>>,
    known_count: int,
) -> bool {
    exists|route: RouteView<S>| #[trigger] route.wf() && route.diff_since(known_count) == (id, points)
}

/// `latest` is the most recent point of some well-formed route.
pub open spec fn is_latest_of_one_state<S>(latest: Option<PositionPoint<S>>) -> bool {
    exists|route: RouteView<S>| #[trigger] route.wf() && route.latest() == latest
}

/// A reader never sees a count that does not match: in a diff as the handle
/// returns it, the points carry the indices that follow `known_count` without
/// a gap, so a reader that adds them to the `known_count` points it holds
/// has a well-numbered copy of the route as it was under the id it was sent.
pub proof fn lemma_diff_of_one_state_fits<S>(
    id: u64,
    points: Seq<PositionPoint<S>>,
    known_count: nat,
)
    requires
        is_diff_of_one_state(id, points, known_count as int),
    ensures
        forall|k: int|
            0 <= k < points.len() ==> (#[trigger] points[k]).sequence_index == known_count + k,
{
    let route = choose|route: RouteView<S>| #[trigger]
        route.wf() && route.diff_since(known_count as int) == (id, points);
    assert forall|k: int| 0 <= k < points.len() implies (#[trigger] points[k]).sequence_index
        == known_count + k by {
        assert(points[k] == route.points[known_count + k]);
    }
}

/// The two sessions on either side of a reset.
#[derive(Clone, Copy, Debug, PartialEq, Eq, Structural)]
pub struct SessionChange {
    /// The id of the session that the reset ended.
    pub ended: u64,
    /// The id of the session that the reset began.
    pub began: u64,
}

/// Whether a message that was handed to the channel was taken: it was unless
/// the channel handed it back.
pub fn was_taken(outcome: Result<(), SendError<ControlMessage>>) -> (taken: bool)
    ensures
        taken <==> outcome is Ok,
{
    match outcome {
        Ok(_) => true,
        Err(_) => false,
    }
}

/// A route behind a lock, and the means to tell the worker to stop.
///
/// A handle is cheap to clone, and all clones share one route and one
/// channel. Every operation on the route takes the lock, works on the route
/// and gives the lock back, and does nothing else while it holds the lock.
/// So each operation sees the route either before or after any other
/// operation, never in between.
pub struct ConnectionHandle<S> {
    route: Arc<RwLock<Route<S>, WellFormed>>,
    stop: Sender<ControlMessage>,
    first: Ghost<RouteView<S>>,
}

impl<S> Clone for ConnectionHandle<S> {
    /// Another handle to the same route and the same channel.
    fn clone(&self) -> (copy: Self)
        ensures
            copy.shares_route_with(self),
            copy.first_route() == self.first_route(),
    {
        ConnectionHandle {
            route: share_lock(&self.route),
            stop: clone_sender(&self.stop),
            first: Ghost(self.first@),
        }
    }
}

impl<S> ConnectionHandle<S> {
    /// Both handles lead to one and the same lock, and so to one route.
    pub closed spec fn shares_route_with(&self, other: &Self) -> bool {
        self.route == other.route
    }

    /// The sending end that the handle asks the worker through.
    pub closed spec fn stop_sender(&self) -> Sender<ControlMessage> {
        self.stop
    }

    /// The route that was put behind the lock when the first handle to it
    /// was made. What the lock holds now is not known to any one holder.
    pub closed spec fn first_route(&self) -> RouteView<S> {
        self.first@
    }

    /// A handle to a new, empty route in session 0; `stop` is the sending end
    /// of the channel that the worker listens on.
    pub fn new(stop: Sender<ControlMessage>) -> (handle: Self)
        ensures
            handle.stop_sender() == stop,
            handle.first_route() == RouteView::<S>::fresh(),
    {
        Self::with_id(0, stop)
    }

    /// A handle to a new, empty route whose first session has the id `id`.
    pub fn with_id(id: u64, stop: Sender<ControlMessage>) -> (handle: Self)
        ensures
            handle.stop_sender() == stop,
            handle.first_route() == (RouteView::<S> { id, points: Seq::empty() }),
    {
        let route: Route<S> = Route::with_id(id);
        let first = Ghost(route@);
        ConnectionHandle { route: Arc::new(RwLock::new(route, Ghost(WellFormed))), stop, first }
    }

    /// Appends `sample` to the shared route.
    pub fn append(&self, sample: S) {
        let (mut route, guard) = self.route.acquire_write();
        route.append(sample);
        guard.release_write(route);
    }

    /// Starts a new session on the shared route, and returns the id of the
    /// session that it ended and the id of the session that it began. The
    /// two always differ: the second is the one that follows the first.
    pub fn reset(&self) -> (change: SessionChange)
        ensures
            change.began == next_id(change.ended),
            change.began != change.ended,
    {
        let (mut route, guard) = self.route.acquire_write();
        let ended: u64 = route.id();
        route.reset();
        let began: u64 = route.id();
        guard.release_write(route);
        SessionChange { ended, began }
    }

    /// The id of the session that the shared route is in.
    pub fn id(&self) -> (id: u64) {
        let guard = self.route.acquire_read();
        let id: u64 = guard.borrow().id();
        guard.release_read();
        id
    }

    /// Asks the worker to stop. Returns whether the request was put on the
    /// channel; it is not when the worker has ended and dropped its end.
    /// Either way the call returns at once, and asking again does no harm.
    pub fn request_stop(&self) -> (delivered: bool) {
        was_taken(send_message(&self.stop, ControlMessage::Stop))
    }
}

impl<S: Copy> ConnectionHandle<S> {
    /// A copy of the most recent point of the shared route, if it has one.
    pub fn latest(&self) -> (latest: Option<PositionPoint<S>>)
        ensures
            is_latest_of_one_state(latest),
    {
        let guard = self.route.acquire_read();
        let route = guard.borrow();
        let latest: Option<PositionPoint<S>> = match route.latest() {
            Some(point) => Some(*point),
            None => None,
        };
        proof {
            assert(route@.wf() && route@.latest() == latest);
        }
        guard.release_read();
        latest
    }

    /// The session id of the shared route and a copy of every point from
    /// position `known_count` on, both taken under one hold of the lock.
    pub fn diff_since(&self, known_count: usize) -> (diff: (u64, Vec<PositionPoint<S>>))
        ensures
            is_diff_of_one_state(diff.0, diff.1@, known_count as int),
    {
        let guard = self.route.acquire_read();
        let route = guard.borrow();
        let (id, unseen) = route.diff_since(known_count);
        let points: Vec<PositionPoint<S>> = vstd::slice::slice_to_vec(unseen);
        proof {
            assert(route@.wf() && route@.diff_since(known_count as int) == (id, points@));
        }
        guard.release_read();
        (id, points)
    }
}

} // verus!
