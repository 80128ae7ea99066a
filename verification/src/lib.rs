//! Drawing primitives (circles, rectangles, radial gradients) for an
//! OpenGL-like graphics context.
//!
//! The library plans every interaction with the graphics driver as an exact
//! sequence of commands (`GlCommand`): building a shape resource, re-uploading
//! its geometry, drawing it with a set of shader uniforms, and releasing its
//! GPU handles.  The plans, the uniform values, and the byte layout of the
//! vertex and index buffers are all specified and verified; a thin unverified
//! interpreter executes the plans against a real graphics context.
//!
//! Scalar quantities that the graphics driver consumes as single-precision
//! values (radii, positions, colors) are carried as their bit patterns
//! (`ScalarBits`): the library never computes with them beyond exact integer
//! reasoning, so every statement about them is exact.

use vstd::prelude::*;

pub mod commands;
pub mod mesh;
pub mod shader;
pub mod shapes;
pub mod uniforms;

verus! {

/// Corner style of a rectangle outline: rounded corners (with a fixed
/// border radius chosen by the tessellation caller) or hard 90-degree corners.
#[derive(Clone, Copy, Debug, PartialEq, Eq, Structural)]
pub enum CornerType {
    Round,
    Hard,
}

/// The bit pattern of an IEEE-754 single-precision scalar.
///
/// The graphics driver consumes 32-bit scalars; this library carries them
/// opaquely as their bit patterns and never performs rounding arithmetic on
/// them, so equality of `ScalarBits` values is exact equality of the scalars
/// they denote.
#[derive(Clone, Copy, Debug, PartialEq, Eq, Structural)]
pub struct ScalarBits(pub u32);

} // verus!
