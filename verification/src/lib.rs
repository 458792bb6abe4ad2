//! Constraint lattice for numeric literals during type inference.
//!
//! A numeric literal such as `5` or `-5` cannot immediately be given a
//! concrete machine type: its textual value only imposes an *open lower
//! bound* (a minimum capacity and possibly a sign demand) on the type it
//! will eventually resolve to. This crate models that lower bound as a
//! [`range::NumericRange`], tests it against concrete candidate types
//! ([`range::NumericRange::match_content`]), merges two independently
//! derived bounds into the tightest bound consistent with both
//! ([`range::NumericRange::intersection`]), and enumerates the concrete
//! widths still satisfying a bound in ascending preference order
//! ([`range::NumericRange::variable_slice`]).

pub mod bound;
pub mod content;
pub mod laws;
pub mod range;
pub mod tables;
pub mod width;
