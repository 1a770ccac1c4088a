//! Generation of random-construction routines from type shapes.
//!
//! A [`TypeShape`] lists the labelled alternatives of a data type, each with
//! its ordered fields. [`generate`] turns a shape into a
//! [`ConstructionRoutine`]: the body of a procedure that builds a pseudo-random
//! value of the type from a caller-supplied randomness handle.
//!
//! - [`shape`]: the input descriptor.
//! - [`routine`]: the routine that comes out.
//! - [`generate`](mod@generate): the generator and its specification.
//! - [`trace`]: what a routine does when it runs.
//! - [`render`]: the routine as Rust source text.
//! - [`laws`]: what holds of every generated routine.

pub mod generate;
pub mod laws;
pub mod render;
pub mod routine;
pub mod shape;
pub mod trace;

pub use generate::{construct_alternative, generate};
pub use routine::{Construction, ConstructionRoutine, FieldCall, HandleUse, RoutineBody};
pub use shape::{Alternative, Field, FieldKind, ShapeError, TypeShape};
pub use trace::{Outcome, Step};
