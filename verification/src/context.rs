//! The transform context that a handle draws under.

use vstd::prelude::*;
use crate::value::{ONE, ZERO};

verus! {

/// One column of a 4×4 matrix.
#[derive(Clone, Copy, Debug, PartialEq, Eq, Structural)]
pub struct Column {
    pub x: u32,
    pub y: u32,
    pub z: u32,
    pub w: u32,
}

/// A 4×4 matrix in column-major order.
#[derive(Clone, Copy, Debug, PartialEq, Eq, Structural)]
pub struct Matrix {
    pub x_axis: Column,
    pub y_axis: Column,
    pub z_axis: Column,
    pub w_axis: Column,
}

/// The identity matrix.
pub open spec fn spec_identity() -> Matrix {
    Matrix {
        x_axis: Column { x: ONE, y: ZERO, z: ZERO, w: ZERO },
        y_axis: Column { x: ZERO, y: ONE, z: ZERO, w: ZERO },
        z_axis: Column { x: ZERO, y: ZERO, z: ONE, w: ZERO },
        w_axis: Column { x: ZERO, y: ZERO, z: ZERO, w: ONE },
    }
}

impl Matrix {
    /// The identity matrix.
    pub fn identity() -> (m: Matrix)
        ensures
            m == spec_identity(),
    {
        Matrix {
            x_axis: Column { x: ONE, y: ZERO, z: ZERO, w: ZERO },
            y_axis: Column { x: ZERO, y: ONE, z: ZERO, w: ZERO },
            z_axis: Column { x: ZERO, y: ZERO, z: ONE, w: ZERO },
            w_axis: Column { x: ZERO, y: ZERO, z: ZERO, w: ONE },
        }
    }
}

/// The transform of a handle. A context is a value: deriving a handle makes
/// a new one and leaves the old one as it was.
///
/// Two contexts are the same if their bit patterns are the same. This is
/// not the comparison of the real numbers that the patterns encode: `0.0`
/// and `-0.0` are different patterns, and a pattern that encodes no number
/// is the same as itself. A caller for whom `0.0` and `-0.0` are one
/// transform hands over one pattern for both.
#[derive(Clone, Copy, Debug, PartialEq, Eq, Structural)]
pub struct DrawContext {
    pub transform: Matrix,
}

impl Default for DrawContext {
    fn default() -> (context: DrawContext)
        ensures
            context.transform == spec_identity(),
    {
        DrawContext { transform: Matrix::identity() }
    }
}

} // verus!
