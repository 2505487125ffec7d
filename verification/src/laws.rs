//! What holds of the engine whatever its state and whatever it is handed.
//!
//! Each statement here is over the views that the contracts of the executable
//! functions speak of, so it applies to every run of those functions.

use vstd::prelude::*;
use crate::history::TrajectoryHistory;
use crate::parameters::ParameterField;
use crate::scalar::{Scalar, Vec3};
use crate::simulation::SimulationView;

verus! {

/// After `append(p)` a history holds one point more than before, `p` is its
/// last point, and the points before it are the ones it held, in their
/// order. A snapshot taken then shows exactly that.
pub proof fn lemma_append_then_snapshot(
    before: TrajectoryHistory,
    after: TrajectoryHistory,
    snapshot: Vec<Vec3>,
    p: Vec3,
)
    requires
        after@ == before@.push(p),
        snapshot@ == after@,
    ensures
        snapshot@.len() == before@.len() + 1,
        snapshot@.last() == p,
        snapshot@.drop_last() == before@,
{
    assert(before@.push(p).drop_last() =~= before@);
}

/// `reset` leaves a history empty whatever it held before, and a snapshot
/// taken then holds no point at all.
pub proof fn lemma_reset_then_snapshot(after: TrajectoryHistory, snapshot: Vec<Vec3>)
    requires
        after@ == Seq::<Vec3>::empty(),
        snapshot@ == after@,
    ensures
        snapshot@.len() == 0,
        forall|p: Vec3| !snapshot@.contains(p),
{
}

/// A simulation starts with position and trajectory in agreement, and no
/// edit, step or commit ever breaks that agreement.
pub proof fn lemma_coherence_is_invariant(
    s: SimulationView,
    field: ParameterField,
    value: Scalar,
    next: Vec3,
)
    ensures
        SimulationView::initial().coherent(),
        s.coherent() ==> s.edit(field, value).coherent(),
        s.advance(next).coherent(),
        s.commit().coherent(),
{
}

/// A commit takes over exactly the staged coefficients, puts the position
/// back to `(1, 1, 1)`, empties the trajectory and leaves the stage alone,
/// so that running and staged coefficients are equal afterwards. It is one
/// transition: the state after it has all of this at once. Committing again
/// without an edit in between changes nothing.
pub proof fn lemma_commit(s: SimulationView)
    ensures
        s.commit().running == s.staged,
        s.commit().position == Vec3::one(),
        s.commit().history.len() == 0,
        s.commit().staged == s.staged,
        s.commit().running == s.commit().staged,
        s.commit().commit() == s.commit(),
{
}

/// Editing the stage leaves the running coefficients, the position and the
/// trajectory exactly as they were; the edited value starts to run only with
/// the next commit, and then it runs unchanged.
pub proof fn lemma_edits_are_staged(s: SimulationView, field: ParameterField, value: Scalar)
    ensures
        s.edit(field, value).running == s.running,
        s.edit(field, value).position == s.position,
        s.edit(field, value).history == s.history,
        s.edit(field, value).staged.get(field) == value,
        s.edit(field, value).commit().running == s.staged.with(field, value),
        s.edit(field, value).commit().running.get(field) == value,
{
}

/// An edit replaces one staged coefficient and keeps the other two.
pub proof fn lemma_edit_touches_one_field(
    s: SimulationView,
    field: ParameterField,
    value: Scalar,
    other: ParameterField,
)
    requires
        other != field,
    ensures
        s.edit(field, value).staged.get(other) == s.staged.get(other),
{
}

/// A step records its outcome as the newest point of the trajectory and
/// makes it the current position; coefficients, running and staged, are
/// untouched, and so is every older point.
pub proof fn lemma_advance(s: SimulationView, next: Vec3)
    ensures
        s.advance(next).position == next,
        s.advance(next).history.len() == s.history.len() + 1,
        s.advance(next).history.last() == next,
        s.advance(next).history.drop_last() == s.history,
        s.advance(next).running == s.running,
        s.advance(next).staged == s.staged,
{
    assert(s.history.push(next).drop_last() =~= s.history);
}

/// The trajectory is the record of the steps in the order in which they were
/// taken: after any run of steps it is the trajectory from before, followed
/// by the outcomes of those steps, none lost and none out of place.
pub proof fn lemma_history_records_steps_in_order(s: SimulationView, steps: Seq<Vec3>)
    ensures
        s.advance_all(steps).history == s.history + steps,
        s.advance_all(steps).running == s.running,
        s.advance_all(steps).staged == s.staged,
        steps.len() > 0 ==> s.advance_all(steps).position == steps.last(),
        steps.len() == 0 ==> s.advance_all(steps) == s,
    decreases steps.len(),
{
    if steps.len() == 0 {
        assert(s.history + steps =~= s.history);
    } else {
        lemma_history_records_steps_in_order(s, steps.drop_last());
        assert((s.history + steps.drop_last()).push(steps.last()) =~= s.history + steps);
    }
}

} // verus!
