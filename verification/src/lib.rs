//! Tape-based evaluation of closed-form implicit surfaces.
//!
//! The crate holds a conservative interval type over IEEE-754 single values,
//! the choice trace that `min` and `max` clauses leave behind, and the
//! evaluator handles that drive a back-end over a tape.  Single values are
//! carried by their bit patterns: order, sign and selection are decided on the
//! bits and proved here; the rounded arithmetic is computed in software by
//! `rustc_apfloat` and `const_soft_float`, and only named here.

pub mod choice;
pub mod coordinate;
pub mod error;
pub mod family;
pub mod interval;
pub mod interval_eval;
pub mod point;
pub mod region;
pub mod rounding;
pub mod single;
pub mod tape;
pub mod trace;

pub use choice::Choice;
pub use coordinate::{CoordinateIntervalEval, CoordinatePointEval, CoordinateTape, Coordinates};
pub use error::Error;
pub use family::Eval;
pub use interval::Interval;
pub use interval_eval::{IntervalEval, IntervalEvalStorage, IntervalEvalT};
pub use point::{PointEval, PointEvalT};
pub use region::{Axis, Region};
pub use single::Single;
pub use tape::Tape;
