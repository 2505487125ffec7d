//! One simulation: integrator, trajectory and stage, held together.

use vstd::prelude::*;
use crate::history::TrajectoryHistory;
use crate::integrator::IntegratorState;
use crate::parameters::{AttractorParameters, ParameterField, ParameterStage};
use crate::scalar::{Scalar, Vec3};

verus! {

/// What a [`Simulation`] holds, as plain mathematical values.
pub struct SimulationView {
    /// The coefficients that the simulation runs with.
    pub running: AttractorParameters,
    /// Where the simulation stands now.
    pub position: Vec3,
    /// Every position reached since the last restart, oldest first.
    pub history: Seq<Vec3>,
    /// The coefficients that the user is editing.
    pub staged: AttractorParameters,
}

impl SimulationView {
    /// The state in which a simulation is created: canonical coefficients,
    /// running and staged alike, at `(1, 1, 1)`, with nothing recorded.
    pub open spec fn initial() -> SimulationView {
        SimulationView {
            running: AttractorParameters::canonical(),
            position: Vec3::one(),
            history: Seq::empty(),
            staged: AttractorParameters::canonical(),
        }
    }

    /// Position and trajectory agree: an empty trajectory goes with the
    /// starting position, and otherwise the newest recorded point is the
    /// current position.
    pub open spec fn coherent(self) -> bool {
        if self.history.len() == 0 {
            self.position == Vec3::one()
        } else {
            self.history.last() == self.position
        }
    }

    /// The state after the staged coefficient `field` is set to `value`.
    pub open spec fn edit(self, field: ParameterField, value: Scalar) -> SimulationView {
        SimulationView { staged: self.staged.with(field, value), ..self }
    }

    /// The state after one integration step has led to `next`.
    pub open spec fn advance(self, next: Vec3) -> SimulationView {
        SimulationView { position: next, history: self.history.push(next), ..self }
    }

    /// The state after the staged coefficients are committed.
    pub open spec fn commit(self) -> SimulationView {
        SimulationView {
            running: self.staged,
            position: Vec3::one(),
            history: Seq::empty(),
            staged: self.staged,
        }
    }

    /// The state after the integration steps that led to `steps`, taken in
    /// order.
    pub open spec fn advance_all(self, steps: Seq<Vec3>) -> SimulationView
        decreases steps.len(),
    {
        if steps.len() == 0 {
            self
        } else {
            self.advance_all(steps.drop_last()).advance(steps.last())
        }
    }
}

/// The one simulated system: its integrator state, the trajectory it has
/// drawn, and the stage on which its next coefficients are prepared.
///
/// Position and trajectory always agree (see [`SimulationView::coherent`]),
/// whatever sequence of calls led here.
pub struct Simulation {
    integrator: IntegratorState,
    history: TrajectoryHistory,
    stage: ParameterStage,
}

impl View for Simulation {
    type V = SimulationView;

    closed spec fn view(&self) -> SimulationView {
        SimulationView {
            running: self.integrator@.parameters,
            position: self.integrator@.position,
            history: self.history@,
            staged: self.stage@,
        }
    }
}

impl Simulation {
    #[verifier::type_invariant]
    spec fn well_formed(&self) -> bool {
        self@.coherent()
    }

    /// A simulation in its initial state.
    pub fn new() -> (sim: Simulation)
        ensures
            sim@ == SimulationView::initial(),
    {
        let integrator = IntegratorState::new();
        let history = TrajectoryHistory::new();
        let stage = ParameterStage::new(integrator.parameters());
        Simulation { integrator, history, stage }
    }

    /// The coefficients that the simulation runs with.
    pub fn parameters(&self) -> (p: AttractorParameters)
        ensures
            p == self@.running,
    {
        self.integrator.parameters()
    }

    /// Where the simulation stands now.
    pub fn position(&self) -> (p: Vec3)
        ensures
            p == self@.position,
            self@.coherent(),
    {
        proof {
            use_type_invariant(self);
        }
        self.integrator.position()
    }

    /// The coefficients that are staged now.
    pub fn staged(&self) -> (p: AttractorParameters)
        ensures
            p == self@.staged,
    {
        self.stage.value()
    }

    /// The trajectory drawn since the last restart, for reading.
    pub fn history(&self) -> (history: &TrajectoryHistory)
        ensures
            history@ == self@.history,
            self@.coherent(),
    {
        proof {
            use_type_invariant(self);
        }
        &self.history
    }

    /// A copy of the trajectory as it is now, oldest position first.
    pub fn snapshot(&self) -> (points: Vec<Vec3>)
        ensures
            points@ == self@.history,
            self@.coherent(),
    {
        proof {
            use_type_invariant(self);
        }
        self.history.snapshot()
    }

    /// Sets the staged coefficient that `field` names to `value`.
    ///
    /// Only the stage changes: the running coefficients, the position and
    /// the trajectory are what they were, however often this is called.
    pub fn edit(&mut self, field: ParameterField, value: Scalar)
        ensures
            final(self)@ == old(self)@.edit(field, value),
    {
        proof {
            use_type_invariant(&*self);
        }
        let mut taken = Simulation::new();
        std::mem::swap(self, &mut taken);
        let Simulation { integrator, history, mut stage } = taken;
        stage.edit(field, value);
        *self = Simulation { integrator, history, stage };
    }

    /// Takes `next` as the outcome of one integration step: it becomes the
    /// current position and the newest point of the trajectory. Returns
    /// `next`.
    pub fn advance(&mut self, next: Vec3) -> (position: Vec3)
        ensures
            position == next,
            final(self)@ == old(self)@.advance(next),
    {
        let mut taken = Simulation::new();
        std::mem::swap(self, &mut taken);
        let Simulation { mut integrator, mut history, stage } = taken;
        integrator.advance(next);
        history.append(next);
        *self = Simulation { integrator, history, stage };
        next
    }

    /// Takes one integration step over the time `dt` and records it.
    ///
    /// `scheme` is handed the running coefficients, the current position and
    /// `dt`, in that order, and is called once. It never sees the stage. The
    /// position it gives back becomes the current position and the newest
    /// point of the trajectory, and is returned.
    pub fn step<F>(&mut self, dt: Scalar, scheme: F) -> (position: Vec3) where
        F: Fn(AttractorParameters, Vec3, Scalar) -> Vec3,

        requires
            call_requires(scheme, (old(self)@.running, old(self)@.position, dt)),
        ensures
            call_ensures(scheme, (old(self)@.running, old(self)@.position, dt), position),
            final(self)@ == old(self)@.advance(position),
    {
        let next = scheme(self.integrator.parameters(), self.integrator.position(), dt);
        self.advance(next)
    }

    /// Commits the staged coefficients: they become the running ones, the
    /// position goes back to `(1, 1, 1)` and the trajectory is emptied, all
    /// in this one call. The stage keeps its value.
    pub fn commit(&mut self)
        ensures
            final(self)@ == old(self)@.commit(),
    {
        let mut taken = Simulation::new();
        std::mem::swap(self, &mut taken);
        let Simulation { mut integrator, mut history, stage } = taken;
        integrator.commit(stage.value());
        history.reset();
        *self = Simulation { integrator, history, stage };
    }
}

} // verus!
