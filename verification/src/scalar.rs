//! Scalars and points, carried as bit patterns.

use vstd::prelude::*;

verus! {

/// Bit pattern of the number one in IEEE-754 single precision.
pub const ONE_BITS: u32 = 0x3F80_0000;

/// A real number, held as its IEEE-754 single-precision bit pattern.
///
/// Two scalars are equal exactly when their bit patterns are equal.
#[derive(Clone, Copy, Debug, PartialEq, Eq, Structural)]
pub struct Scalar {
    pub bits: u32,
}

impl Scalar {
    /// The scalar with the given bit pattern.
    pub fn from_bits(bits: u32) -> (s: Scalar)
        ensures
            s == (Scalar { bits }),
    {
        Scalar { bits }
    }

    /// The bit pattern of this scalar.
    pub fn to_bits(&self) -> (bits: u32)
        ensures
            bits == self.bits,
    {
        self.bits
    }

    /// The number one.
    pub open spec fn spec_one() -> Scalar {
        Scalar { bits: ONE_BITS }
    }

    /// The number one.
    #[verifier::when_used_as_spec(spec_one)]
    pub fn one() -> (s: Scalar)
        ensures
            s == Scalar::spec_one(),
    {
        Scalar { bits: ONE_BITS }
    }
}

/// A point in three-dimensional space.
#[derive(Clone, Copy, Debug, PartialEq, Eq, Structural)]
pub struct Vec3 {
    pub x: Scalar,
    pub y: Scalar,
    pub z: Scalar,
}

impl Vec3 {
    /// The point with the given coordinates.
    pub fn new(x: Scalar, y: Scalar, z: Scalar) -> (p: Vec3)
        ensures
            p == (Vec3 { x, y, z }),
    {
        Vec3 { x, y, z }
    }

    /// The point `(1, 1, 1)`, where every trajectory starts.
    pub open spec fn spec_one() -> Vec3 {
        Vec3 { x: Scalar::spec_one(), y: Scalar::spec_one(), z: Scalar::spec_one() }
    }

    /// The point `(1, 1, 1)`, where every trajectory starts.
    #[verifier::when_used_as_spec(spec_one)]
    pub fn one() -> (p: Vec3)
        ensures
            p == Vec3::spec_one(),
    {
        Vec3 { x: Scalar::one(), y: Scalar::one(), z: Scalar::one() }
    }
}

} // verus!
