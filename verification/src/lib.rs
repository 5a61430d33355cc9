//! A small grading harness: the decisions of a build-run-verify pipeline for
//! one submitted program, with the two checks that judge its output.

pub mod builder;
pub mod checks;
pub mod error;
pub mod laws;
pub mod pipeline;
pub mod runner;
pub mod testdata;
pub mod text;

