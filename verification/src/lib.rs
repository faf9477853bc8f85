//! The manipulation core of a 2D vector-graphics editor: pointer gestures on
//! selection handles become affine transforms of the selected elements.
//!
//! Numbers are fixed-point ([`scalar`]), so that every operation is exact,
//! total and the same on every machine. [`engine::TransformEngine`] owns the
//! settings and the one manipulation that may be in progress; [`laws`] states
//! what holds of it whatever it is asked to do.
use vstd::prelude::*;

pub mod alignment;
pub mod constraint;
pub mod element;
pub mod engine;
pub mod geometry;
pub mod guides;
pub mod handles;
pub mod idmap;
pub mod laws;
pub mod rotation;
pub mod scalar;
pub mod session;
pub mod transform;
pub mod viewport;

pub use alignment::Alignment;
pub use constraint::{Constraint, ConstraintSet, ConstraintType};
pub use element::{
    BezierCurve, CollaborationCursor, ColorStop, FillType, FontStyle, FontWeight, GradientType,
    GridSettings, LineCap, LineJoin, PathSegment, PatternRepeat, Selection, Shadow, Stroke, Style,
    TextAlign, VectorElement, VectorPath, VectorShape, VectorText,
};
pub use engine::{TransformEngine, TransformError};
pub use geometry::{BoundingBox, Point};
pub use guides::{AlignmentGuide, Orientation};
pub use handles::{Handle, HandleType};
pub use rotation::Rotation;
pub use scalar::{Scalar, ONE};
pub use session::{ElementSnapshot, TransformSession};
pub use transform::Transform;
pub use viewport::Viewport;

verus! {

/// The sum of two numbers that add up within 64 bits.
pub fn add(left: u64, right: u64) -> (total: u64)
    requires
        left + right <= u64::MAX,
    ensures
        total == left + right,
{
    left + right
}

} // verus!
