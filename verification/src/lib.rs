//! Build-time composition of contract modules.
//!
//! A contract module is declared as a trait; this crate models such a
//! declaration, transforms it into an interface with a pluggable
//! "current implementation" slot, generates boundary entry points with
//! normalized signatures, and resolves ordered extension chains around a
//! base implementation for a concrete target.

pub mod args;
pub mod ast;
pub mod compose;
pub mod diag;
pub mod json;
pub mod laws;
pub mod output;
pub mod transform;
pub mod util;
