//! The attractor's coefficients and the staged copy that a user edits.

use vstd::prelude::*;
use crate::scalar::Scalar;

verus! {

/// Bit pattern of the canonical `sigma`, ten.
pub const SIGMA_BITS: u32 = 0x4120_0000;

/// Bit pattern of the canonical `rho`, twenty-eight.
pub const RHO_BITS: u32 = 0x41E0_0000;

/// Bit pattern of the canonical `beta`, eight thirds rounded to nearest.
pub const BETA_BITS: u32 = 0x402A_AAAB;

/// One of the three coefficients.
#[derive(Clone, Copy, Debug, PartialEq, Eq, Structural)]
pub enum ParameterField {
    Sigma,
    Rho,
    Beta,
}

/// The three coefficients of the Lorenz rate equations.
///
/// No range is imposed on them: every bit pattern is a value.
#[derive(Clone, Copy, Debug, PartialEq, Eq, Structural)]
pub struct AttractorParameters {
    pub sigma: Scalar,
    pub rho: Scalar,
    pub beta: Scalar,
}

impl AttractorParameters {
    /// The canonical coefficients: `sigma = 10`, `rho = 28`, `beta = 8/3`.
    pub open spec fn spec_canonical() -> AttractorParameters {
        AttractorParameters {
            sigma: Scalar { bits: SIGMA_BITS },
            rho: Scalar { bits: RHO_BITS },
            beta: Scalar { bits: BETA_BITS },
        }
    }

    /// The coefficient that `field` names.
    pub open spec fn spec_get(self, field: ParameterField) -> Scalar {
        match field {
            ParameterField::Sigma => self.sigma,
            ParameterField::Rho => self.rho,
            ParameterField::Beta => self.beta,
        }
    }

    /// These coefficients with the one that `field` names replaced by `value`
    /// and the other two kept.
    pub open spec fn spec_with(self, field: ParameterField, value: Scalar) -> AttractorParameters {
        match field {
            ParameterField::Sigma => AttractorParameters { sigma: value, ..self },
            ParameterField::Rho => AttractorParameters { rho: value, ..self },
            ParameterField::Beta => AttractorParameters { beta: value, ..self },
        }
    }

    /// The coefficients `sigma`, `rho`, `beta`, in that order.
    pub fn new(sigma: Scalar, rho: Scalar, beta: Scalar) -> (p: AttractorParameters)
        ensures
            p == (AttractorParameters { sigma, rho, beta }),
    {
        AttractorParameters { sigma, rho, beta }
    }

    /// The canonical coefficients: `sigma = 10`, `rho = 28`, `beta = 8/3`.
    #[verifier::when_used_as_spec(spec_canonical)]
    pub fn canonical() -> (p: AttractorParameters)
        ensures
            p == AttractorParameters::spec_canonical(),
    {
        AttractorParameters {
            sigma: Scalar::from_bits(SIGMA_BITS),
            rho: Scalar::from_bits(RHO_BITS),
            beta: Scalar::from_bits(BETA_BITS),
        }
    }

    /// The coefficient that `field` names.
    #[verifier::when_used_as_spec(spec_get)]
    pub fn get(self, field: ParameterField) -> (value: Scalar)
        ensures
            value == self.spec_get(field),
    {
        match field {
            ParameterField::Sigma => self.sigma,
            ParameterField::Rho => self.rho,
            ParameterField::Beta => self.beta,
        }
    }

    /// These coefficients with the one that `field` names replaced by `value`.
    #[verifier::when_used_as_spec(spec_with)]
    pub fn with(self, field: ParameterField, value: Scalar) -> (p: AttractorParameters)
        ensures
            p == self.spec_with(field, value),
    {
        match field {
            ParameterField::Sigma => AttractorParameters { sigma: value, rho: self.rho, beta: self.beta },
            ParameterField::Rho => AttractorParameters { sigma: self.sigma, rho: value, beta: self.beta },
            ParameterField::Beta => AttractorParameters { sigma: self.sigma, rho: self.rho, beta: value },
        }
    }
}

/// A detached copy of the coefficients that a user edits.
///
/// The stage has a single state, editing. Every edit is accepted as it comes
/// and touches nothing but the staged copy; whoever owns the running
/// simulation decides when the staged value is taken over.
pub struct ParameterStage {
    staged: AttractorParameters,
}

impl View for ParameterStage {
    type V = AttractorParameters;

    /// The coefficients that are staged now.
    closed spec fn view(&self) -> AttractorParameters {
        self.staged
    }
}

impl ParameterStage {
    /// A stage that holds `initial`.
    pub fn new(initial: AttractorParameters) -> (stage: ParameterStage)
        ensures
            stage@ == initial,
    {
        ParameterStage { staged: initial }
    }

    /// The coefficients that are staged now.
    pub fn value(&self) -> (p: AttractorParameters)
        ensures
            p == self@,
    {
        self.staged
    }

    /// Replaces the staged coefficient that `field` names by `value`; the
    /// other two stay as they were.
    pub fn edit(&mut self, field: ParameterField, value: Scalar)
        ensures
            final(self)@ == old(self)@.with(field, value),
    {
        self.staged = self.staged.with(field, value);
    }
}

} // verus!
