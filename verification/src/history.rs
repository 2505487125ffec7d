//! The trajectory recorded so far.

use vstd::prelude::*;
use crate::scalar::Vec3;

verus! {

/// The positions that a simulation has visited, oldest first.
///
/// A history only grows at its end or is emptied as a whole: no point in it
/// is ever changed, moved or dropped on its own.
pub struct TrajectoryHistory {
    positions: Vec<Vec3>,
}

impl View for TrajectoryHistory {
    type V = Seq<Vec3>;

    /// The recorded positions, in the order in which they were appended.
    closed spec fn view(&self) -> Seq<Vec3> {
        self.positions@
    }
}

impl TrajectoryHistory {
    /// An empty history.
    pub fn new() -> (history: TrajectoryHistory)
        ensures
            history@ == Seq::<Vec3>::empty(),
    {
        TrajectoryHistory { positions: Vec::new() }
    }

    /// Number of recorded positions.
    pub fn len(&self) -> (n: usize)
        ensures
            n == self@.len(),
    {
        self.positions.len()
    }

    /// Whether nothing has been recorded since the history was last emptied.
    pub fn is_empty(&self) -> (empty: bool)
        ensures
            empty == (self@.len() == 0),
    {
        self.positions.len() == 0
    }

    /// The position recorded at `index`, counting from the oldest, if there
    /// is one.
    pub fn get(&self, index: usize) -> (p: Option<Vec3>)
        ensures
            p == (if index < self@.len() {
                Some(self@[index as int])
            } else {
                None
            }),
    {
        if index < self.positions.len() {
            Some(self.positions[index])
        } else {
            None
        }
    }

    /// The position recorded most recently, if there is one.
    pub fn last(&self) -> (p: Option<Vec3>)
        ensures
            p == (if self@.len() > 0 {
                Some(self@.last())
            } else {
                None
            }),
    {
        let n = self.positions.len();
        if n > 0 {
            Some(self.positions[n - 1])
        } else {
            None
        }
    }

    /// Records `p` as the newest position. Everything recorded before stays
    /// where it was.
    pub fn append(&mut self, p: Vec3)
        ensures
            final(self)@ == old(self)@.push(p),
    {
        self.positions.push(p);
    }

    /// Empties the history.
    pub fn reset(&mut self)
        ensures
            final(self)@ == Seq::<Vec3>::empty(),
    {
        self.positions.clear();
    }

    /// A copy of the whole history as it is now, oldest position first.
    ///
    /// The copy is independent of the history: later appends and resets do
    /// not reach it.
    pub fn snapshot(&self) -> (points: Vec<Vec3>)
        ensures
            points@ == self@,
    {
        let points = self.positions.clone();
        assert(points@ =~= self.positions@);
        points
    }
}

} // verus!
