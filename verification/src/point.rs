//! One sample of the simulator's state, as the route keeps it.

use vstd::prelude::*;

verus! {

/// A sample taken at one instant, together with the index that the route
/// gave it when the sample was appended.
///
/// `S` is whatever the device reports for one instant (latitude, longitude,
/// altitude, heading, ground speed). The route never looks inside it: it only
/// carries it. A point is a plain value; the route hands out shared references
/// and copies only, so a point that the route holds never changes.
#[derive(Debug)]
pub struct PositionPoint<S> {
    /// Position of the point in its route: 0 for the oldest point.
    pub sequence_index: usize,
    /// What the device reported.
    pub sample: S,
}

impl<S: Copy> Copy for PositionPoint<S> {

}

impl<S: Copy> Clone for PositionPoint<S> {
    fn clone(&self) -> (copy: Self)
        ensures
            copy == *self,
    {
        *self
    }
}

impl<S> PositionPoint<S> {
    /// The index that the route assigned to this point.
    pub fn sequence_index(&self) -> (index: usize)
        ensures
            index == self.sequence_index,
    {
        self.sequence_index
    }

    /// What the device reported at that instant.
    pub fn sample(&self) -> (sample: &S)
        ensures
            *sample == self.sample,
    {
        &self.sample
    }
}

} // verus!
