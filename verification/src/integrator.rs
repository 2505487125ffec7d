//! The running state of the integrator.

use vstd::prelude::*;
use crate::parameters::AttractorParameters;
use crate::scalar::{Scalar, Vec3};

verus! {

/// What an [`IntegratorState`] holds.
pub struct IntegratorView {
    /// The coefficients that the simulation runs with.
    pub parameters: AttractorParameters,
    /// Where the simulation stands now.
    pub position: Vec3,
}

/// The coefficients that the simulation runs with, and its current position.
///
/// The rate equations themselves are evaluated by whoever drives the
/// simulation; this type is the authority on what they are evaluated with,
/// and on where each step has led.
pub struct IntegratorState {
    parameters: AttractorParameters,
    position: Vec3,
}

impl View for IntegratorState {
    type V = IntegratorView;

    closed spec fn view(&self) -> IntegratorView {
        IntegratorView { parameters: self.parameters, position: self.position }
    }
}

impl IntegratorState {
    /// The state in which every simulation starts: the canonical
    /// coefficients, at `(1, 1, 1)`.
    pub fn new() -> (state: IntegratorState)
        ensures
            state@.parameters == AttractorParameters::canonical(),
            state@.position == Vec3::one(),
    {
        IntegratorState { parameters: AttractorParameters::canonical(), position: Vec3::one() }
    }

    /// The coefficients that the simulation runs with.
    pub fn parameters(&self) -> (p: AttractorParameters)
        ensures
            p == self@.parameters,
    {
        self.parameters
    }

    /// Where the simulation stands now.
    pub fn position(&self) -> (p: Vec3)
        ensures
            p == self@.position,
    {
        self.position
    }

    /// Takes `next` as the outcome of one integration step: it becomes the
    /// current position and is handed back. The coefficients are untouched.
    pub fn advance(&mut self, next: Vec3) -> (position: Vec3)
        ensures
            position == next,
            final(self)@.position == next,
            final(self)@.parameters == old(self)@.parameters,
    {
        self.position = next;
        next
    }

    /// Takes one integration step over the time `dt`.
    ///
    /// `scheme` is handed the running coefficients, the current position and
    /// `dt`, in that order, and is called once; whatever position it gives
    /// back becomes the current position and is returned. The coefficients
    /// are untouched.
    pub fn step<F>(&mut self, dt: Scalar, scheme: F) -> (position: Vec3) where
        F: Fn(AttractorParameters, Vec3, Scalar) -> Vec3,

        requires
            call_requires(scheme, (old(self)@.parameters, old(self)@.position, dt)),
        ensures
            call_ensures(scheme, (old(self)@.parameters, old(self)@.position, dt), position),
            final(self)@.position == position,
            final(self)@.parameters == old(self)@.parameters,
    {
        let next = scheme(self.parameters, self.position, dt);
        self.advance(next)
    }

    /// Replaces the coefficients by `new_parameters` and puts the position
    /// back to `(1, 1, 1)`. Nothing of the earlier state survives.
    pub fn commit(&mut self, new_parameters: AttractorParameters)
        ensures
            final(self)@.parameters == new_parameters,
            final(self)@.position == Vec3::one(),
    {
        self.parameters = new_parameters;
        self.position = Vec3::one();
    }
}

} // verus!
