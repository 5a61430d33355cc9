//! The Builder's verdict on a compiler run.
//!
//! Starting the compiler is the caller's business. What is decided here is
//! how its diagnostics are read: any diagnostic text at all, even a single
//! warning, makes the build a failure, whatever status the compiler exited
//! with. A failed build is final for the run.

use vstd::prelude::*;

verus! {

/// How a build ended: with something to run, or with the compiler's words.
#[derive(Clone, Debug, PartialEq, Eq)]
pub enum BuildResult {
    Success { artifact_path: String },
    Failure { diagnostics: String },
}

pub enum BuildResultView {
    Success { artifact_path: Seq<char> },
    Failure { diagnostics: Seq<char> },
}

impl View for BuildResult {
    type V = BuildResultView;

    open spec fn view(&self) -> BuildResultView {
        match self {
            BuildResult::Success { artifact_path } => BuildResultView::Success {
                artifact_path: artifact_path@,
            },
            BuildResult::Failure { diagnostics } => BuildResultView::Failure {
                diagnostics: diagnostics@,
            },
        }
    }
}

/// The result of a build that was asked to write `output_path` and whose
/// compiler wrote `diagnostics` to its error stream.
pub open spec fn build_result_of(output_path: Seq<char>, diagnostics: Seq<char>) -> BuildResultView {
    if diagnostics.len() == 0 {
        BuildResultView::Success { artifact_path: output_path }
    } else {
        BuildResultView::Failure { diagnostics }
    }
}

/// Classifies a finished compiler run. The diagnostics of a failure are
/// handed on unchanged.
pub fn classify_build(output_path: String, diagnostics: String) -> (result: BuildResult)
    ensures
        result@ == build_result_of(output_path@, diagnostics@),
{
    if diagnostics.as_str().is_empty() {
        BuildResult::Success { artifact_path: output_path }
    } else {
        BuildResult::Failure { diagnostics }
    }
}

/// Diagnostic text always means failure, and a failure names no artifact.
pub proof fn diagnostics_mean_failure(output_path: Seq<char>, diagnostics: Seq<char>)
    requires
        diagnostics.len() > 0,
    ensures
        build_result_of(output_path, diagnostics) == (BuildResultView::Failure { diagnostics }),
        !(build_result_of(output_path, diagnostics) is Success),
{
}

} // verus!
