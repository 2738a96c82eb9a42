//! Recognition and safe rewriting of a fixed catalog of unsafe idioms.
//!
//! The crate classifies the statements of a lexical `unsafe` region against a
//! closed catalog of replaceable idioms, extracts the sub-expressions each
//! idiom needs, renders an equivalent checked statement, and plans the exact
//! text edit that removes the unsafe form.  All of it works on a plain data
//! model of the statements involved (their rendered text and character
//! offsets); discovering that model in a real syntax tree is the caller's
//! side of the boundary.

pub mod classify;
pub mod diagnose;
pub mod edit;
pub mod generate;
pub mod laws;
pub mod model;
pub mod pattern;
pub mod plan;
pub mod preview;
pub mod text;
