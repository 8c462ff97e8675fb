//! The history of one tracked session and its incremental reads.

use vstd::prelude::*;
use crate::point::PositionPoint;

verus! {

/// The session id that follows `id`: the next integer, and 0 after the largest.
pub open spec fn next_id(id: u64) -> u64 {
    if id == u64::MAX {
        0
    } else {
        (id + 1) as u64
    }
}

/// The points of `points` from position `known_count` on, oldest first;
/// nothing when `known_count` is past the end.
pub open spec fn points_since<S>(points: Seq<PositionPoint<S>>, known_count: int) -> Seq<
    PositionPoint<S>,
> {
    if 0 <= known_count <= points.len() {
        points.subrange(known_count, points.len() as int)
    } else {
        Seq::empty()
    }
}

/// Every point carries its own position as its sequence index.
pub open spec fn numbered<S>(points: Seq<PositionPoint<S>>) -> bool {
    forall|i: int| 0 <= i < points.len() ==> (#[trigger] points[i]).sequence_index == i
}

/// What a route is, mathematically: a session id and the points appended
/// since the session began, oldest first.
pub struct RouteView<S> {
    pub id: u64,
    pub points: Seq<PositionPoint<S>>,
}

impl<S> RouteView<S> {
    /// The route of a fresh process: session 0, no points.
    pub open spec fn fresh() -> Self {
        RouteView { id: 0, points: Seq::empty() }
    }

    /// The points are numbered by position, and their count fits a `usize`.
    pub open spec fn wf(self) -> bool {
        &&& numbered(self.points)
        &&& self.points.len() <= usize::MAX
    }

    /// The route after `sample` was appended: same session, one more point,
    /// which carries the former length as its index.
    pub open spec fn append(self, sample: S) -> Self {
        RouteView {
            id: self.id,
            points: self.points.push(
                PositionPoint { sequence_index: self.points.len() as usize, sample },
            ),
        }
    }

    /// The route after all of `samples` were appended, in order.
    pub open spec fn append_all(self, samples: Seq<S>) -> Self
        decreases samples.len(),
    {
        if samples.len() == 0 {
            self
        } else {
            self.append_all(samples.drop_last()).append(samples.last())
        }
    }

    /// The route after a reset: the next session, no points.
    pub open spec fn reset(self) -> Self {
        RouteView { id: next_id(self.id), points: Seq::empty() }
    }

    /// The most recent point, if there is one.
    pub open spec fn latest(self) -> Option<PositionPoint<S>> {
        if self.points.len() == 0 {
            None
        } else {
            Some(self.points.last())
        }
    }

    /// What a reader that already holds `known_count` points is sent: the
    /// current session id and the points it has not seen.
    pub open spec fn diff_since(self, known_count: int) -> (u64, Seq<PositionPoint<S>>) {
        (self.id, points_since(self.points, known_count))
    }
}

/// Sequence indices grow strictly along a route: an older point always has
/// the smaller index.
pub proof fn lemma_indices_strictly_increase<S>(route: RouteView<S>)
    requires
        route.wf(),
    ensures
        forall|i: int, j: int|
            0 <= i < j < route.points.len() ==> (#[trigger] route.points[i]).sequence_index < (
            #[trigger] route.points[j]).sequence_index,
{
}

/// An append keeps the session, keeps every point that was there, and adds
/// one point at the end, which holds the sample and the next index.
pub proof fn lemma_append_extends<S>(route: RouteView<S>, sample: S)
    requires
        route.wf(),
        route.points.len() < usize::MAX,
    ensures
        route.append(sample).wf(),
        route.append(sample).id == route.id,
        route.append(sample).points.len() == route.points.len() + 1,
        route.append(sample).points.subrange(0, route.points.len() as int) == route.points,
        route.append(sample).latest() == Some(
            PositionPoint { sequence_index: route.points.len() as usize, sample },
        ),
{
    let after = route.append(sample).points;
    assert(after.subrange(0, route.points.len() as int) =~= route.points);
}

/// Whatever is appended, in whatever number, the route stays well numbered
/// in the same session: the points that were there stay, and the new points
/// follow in the order of the appends, each with the sample it was made from.
pub proof fn lemma_appends_keep_order<S>(route: RouteView<S>, samples: Seq<S>)
    requires
        route.wf(),
        route.points.len() + samples.len() <= usize::MAX,
    ensures
        route.append_all(samples).wf(),
        route.append_all(samples).id == route.id,
        route.append_all(samples).points.len() == route.points.len() + samples.len(),
        forall|i: int|
            0 <= i < route.points.len() ==> #[trigger] route.append_all(samples).points[i]
                == route.points[i],
        forall|k: int|
            0 <= k < samples.len() ==> #[trigger] route.append_all(samples).points[route.points.len()
                + k] == (PositionPoint {
                sequence_index: (route.points.len() + k) as usize,
                sample: samples[k],
            }),
    decreases samples.len(),
{
    if samples.len() > 0 {
        let before = route.append_all(samples.drop_last());
        lemma_appends_keep_order(route, samples.drop_last());
        lemma_append_extends(before, samples.last());
        let after = route.append_all(samples);
        assert(after == before.append(samples.last()));
        assert forall|k: int| 0 <= k < samples.len() implies #[trigger] after.points[route.points.len()
            + k] == (PositionPoint {
            sequence_index: (route.points.len() + k) as usize,
            sample: samples[k],
        }) by {
            if k < samples.len() - 1 {
                assert(after.points[route.points.len() + k] == before.points[route.points.len()
                    + k]);
                assert(samples.drop_last()[k] == samples[k]);
            }
        }
    }
}

/// A diff holds exactly the points whose sequence index is at least
/// `known_count`, in the order of the route and under the route's id.
pub proof fn lemma_diff_is_the_unseen_points<S>(route: RouteView<S>, known_count: nat)
    requires
        route.wf(),
    ensures
        route.diff_since(known_count as int).0 == route.id,
        forall|point: PositionPoint<S>|
            route.diff_since(known_count as int).1.contains(point) <==> (route.points.contains(
                point,
            ) && point.sequence_index >= known_count),
        forall|k: int|
            0 <= k < route.diff_since(known_count as int).1.len() ==> #[trigger] route.diff_since(
                known_count as int,
            ).1[k] == route.points[known_count + k],
        route.diff_since(known_count as int).1.len() == if known_count <= route.points.len() {
            route.points.len() - known_count
        } else {
            0
        },
{
    let diff = route.diff_since(known_count as int).1;
    assert forall|point: PositionPoint<S>|
        diff.contains(point) <==> (route.points.contains(point) && point.sequence_index
            >= known_count) by {
        if diff.contains(point) {
            let k = choose|k: int| 0 <= k < diff.len() && diff[k] == point;
            assert(route.points[known_count + k] == point);
        }
        if route.points.contains(point) && point.sequence_index >= known_count {
            let i = choose|i: int| 0 <= i < route.points.len() && route.points[i] == point;
            assert(diff[i - known_count] == point);
        }
    }
}

/// A diff completes what the reader holds: the first `known_count` points
/// of the route followed by the diff from `known_count` are the route, with
/// no point sent twice and none left out.
pub proof fn lemma_diff_completes_the_known_points<S>(route: RouteView<S>, known_count: nat)
    requires
        known_count <= route.points.len(),
    ensures
        route.points.take(known_count as int) + route.diff_since(known_count as int).1
            == route.points,
{
    assert(route.points.take(known_count as int) + route.diff_since(known_count as int).1
        =~= route.points);
}

/// A reader that was up to date before `samples` were appended is sent just
/// one point for each of them, in the order of the appends.
pub proof fn lemma_diff_is_what_was_appended<S>(route: RouteView<S>, samples: Seq<S>)
    requires
        route.wf(),
        route.points.len() + samples.len() <= usize::MAX,
    ensures
        route.append_all(samples).diff_since(route.points.len() as int).0 == route.id,
        route.append_all(samples).diff_since(route.points.len() as int).1.len() == samples.len(),
        forall|k: int|
            0 <= k < samples.len() ==> (#[trigger] route.append_all(samples).diff_since(
                route.points.len() as int,
            ).1[k]).sample == samples[k],
{
    lemma_appends_keep_order(route, samples);
    let after = route.append_all(samples);
    let diff = after.diff_since(route.points.len() as int).1;
    assert forall|k: int| 0 <= k < samples.len() implies (#[trigger] diff[k]).sample
        == samples[k] by {
        assert(diff[k] == after.points[route.points.len() + k]);
    }
}

/// A reader that holds nothing is sent every point; a reader that holds as
/// many points as the route has is sent none. Both are sent the route's id.
pub proof fn lemma_diff_at_the_ends<S>(route: RouteView<S>)
    requires
        route.wf(),
    ensures
        route.diff_since(0) == (route.id, route.points),
        route.diff_since(route.points.len() as int) == (route.id, Seq::<PositionPoint<S>>::empty()),
{
    assert(route.diff_since(0).1 =~= route.points);
    assert(route.diff_since(route.points.len() as int).1 =~= Seq::<PositionPoint<S>>::empty());
}

/// Right after `samples` were appended to a fresh route, a diff from 0 holds
/// one point for each sample, and a diff from their number holds none.
pub proof fn lemma_diff_after_appends<S>(samples: Seq<S>)
    requires
        samples.len() <= usize::MAX,
    ensures
        RouteView::<S>::fresh().append_all(samples).diff_since(0).1.len() == samples.len(),
        RouteView::<S>::fresh().append_all(samples).diff_since(0) == (
            0u64,
            RouteView::<S>::fresh().append_all(samples).points,
        ),
        RouteView::<S>::fresh().append_all(samples).diff_since(samples.len() as int) == (
            0u64,
            Seq::<PositionPoint<S>>::empty(),
        ),
{
    let route = RouteView::<S>::fresh();
    lemma_appends_keep_order(route, samples);
    lemma_diff_at_the_ends(route.append_all(samples));
}

/// A reset always moves to a session id other than the one before it, and
/// leaves a well-formed route without points, whose latest point is absent
/// and whose every diff is empty.
pub proof fn lemma_reset_starts_over<S>(route: RouteView<S>, known_count: nat)
    ensures
        route.reset().id != route.id,
        route.reset().points.len() == 0,
        route.reset().wf(),
        route.reset().latest().is_none(),
        route.reset().diff_since(known_count as int) == (
            route.reset().id,
            Seq::<PositionPoint<S>>::empty(),
        ),
{
    assert(route.reset().diff_since(known_count as int).1 =~= Seq::<PositionPoint<S>>::empty());
}

/// The history of position samples of one session.
///
/// Points are only ever added at the end, until the route is reset; a reset
/// empties the route and starts a new session under a new id.
pub struct Route<S> {
    id: u64,
    points: Vec<PositionPoint<S>>,
}

impl<S> View for Route<S> {
    type V = RouteView<S>;

    closed spec fn view(&self) -> RouteView<S> {
        RouteView { id: self.id, points: self.points@ }
    }
}

impl<S> Route<S> {
    /// The invariant of a route: its points are numbered by position.
    pub open spec fn wf(&self) -> bool {
        self@.wf()
    }

    /// An empty route in session 0.
    pub fn new() -> (route: Self)
        ensures
            route@ == RouteView::<S>::fresh(),
            route.wf(),
    {
        Route { id: 0, points: Vec::new() }
    }

    /// An empty route whose first session has the id `id`, for a process
    /// that wants its sessions told apart from those of an earlier run.
    pub fn with_id(id: u64) -> (route: Self)
        ensures
            route@ == (RouteView::<S> { id, points: Seq::empty() }),
            route.wf(),
    {
        Route { id, points: Vec::new() }
    }

    /// The id of the current session.
    pub fn id(&self) -> (id: u64)
        ensures
            id == self@.id,
    {
        self.id
    }

    /// The number of points appended in the current session.
    pub fn len(&self) -> (len: usize)
        ensures
            len == self@.points.len(),
    {
        self.points.len()
    }

    /// Whether the current session has no point yet.
    pub fn is_empty(&self) -> (empty: bool)
        ensures
            empty <==> self@.points.len() == 0,
    {
        self.points.len() == 0
    }

    /// Adds `sample` at the end of the route and gives it the next sequence
    /// index. The session id stays as it is.
    pub fn append(&mut self, sample: S)
        requires
            old(self).wf(),
        ensures
            final(self)@ == old(self)@.append(sample),
            final(self).wf(),
    {
        let sequence_index: usize = self.points.len();
        self.points.push(PositionPoint { sequence_index, sample });
        proof {
            assert(self.points.len() == sequence_index + 1);
            lemma_append_extends(old(self)@, sample);
        }
    }

    /// The most recent point, or `None` while the route is empty.
    pub fn latest(&self) -> (latest: Option<&PositionPoint<S>>)
        ensures
            match latest {
                Some(point) => self@.latest() == Some(*point),
                None => self@.latest().is_none(),
            },
    {
        let len: usize = self.points.len();
        if len == 0 {
            None
        } else {
            Some(&self.points[len - 1])
        }
    }

    /// The session id and every point from position `known_count` on.
    ///
    /// Any `known_count` is a valid question. One that is past the end of the
    /// route, because the route was reset or because the reader is ahead, is
    /// answered with no points and the current id.
    pub fn diff_since(&self, known_count: usize) -> (diff: (u64, &[PositionPoint<S>]))
        ensures
            (diff.0, diff.1@) == self@.diff_since(known_count as int),
    {
        let len: usize = self.points.len();
        let from: usize = if known_count <= len {
            known_count
        } else {
            len
        };
        let tail = vstd::slice::slice_subrange(self.points.as_slice(), from, len);
        (self.id, tail)
    }

    /// All points of the current session, oldest first.
    pub fn points(&self) -> (points: &[PositionPoint<S>])
        ensures
            points@ == self@.points,
    {
        self.points.as_slice()
    }

    /// Starts a new session: the route loses its points and gets the next id.
    pub fn reset(&mut self)
        ensures
            final(self)@ == old(self)@.reset(),
            final(self).wf(),
    {
        self.points.clear();
        self.id = self.id.wrapping_add(1);
    }
}

} // verus!
