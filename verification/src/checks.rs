//! The two checks on a finished run.
//!
//! The output check asks whether the program printed exactly what was
//! expected. The integrity check asks whether the expected output stands
//! word for word in the helper code. They answer different questions and are
//! reported side by side, never folded into one.
//!
//! The integrity check is a heuristic. It finds an answer that was pasted
//! into the helper code as it is; it does not find one that is computed,
//! split or disguised, and a hit is a reason to look, not a proof.

use vstd::prelude::*;
use vstd::string::StringExecFns;
use crate::testdata::{TestCase, TestCaseView};
use crate::text::{contains_text, occurs_in, same_text};

verus! {

/// Reported when the output check passes.
pub const OUTPUT_MATCHES: &'static str =
    "✅ Check passed: expected output and actual output match!";

/// Reported when the output check fails.
pub const OUTPUT_DIFFERS: &'static str =
    "❌ Check failed: expected output and actual output do not match!";

/// Reported when the integrity check passes.
pub const ANSWER_ABSENT: &'static str =
    "✅ Check passed: expected output NOT found in helper.rs!";

/// Reported when the integrity check finds the expected output.
pub const ANSWER_FOUND: &'static str = "❌ Check failed: expected output found in helper.rs!";

/// The two judgments on a run, each on its own.
#[derive(Clone, Copy, Debug, PartialEq, Eq, Structural)]
pub struct VerificationVerdict {
    /// The program printed exactly the expected output.
    pub output_matches: bool,
    /// The expected output does not stand in the helper code.
    pub integrity_clean: bool,
}

/// The verdict on a run that printed `actual_output`, judged against `case`
/// and the text of the helper code.
pub open spec fn verdict_of(
    case: TestCaseView,
    actual_output: Seq<char>,
    helper_code: Seq<char>,
) -> VerificationVerdict {
    VerificationVerdict {
        output_matches: case.expected_output == actual_output,
        integrity_clean: !occurs_in(helper_code, case.expected_output),
    }
}

/// The line that reports the output check.
pub open spec fn output_message_of(matches: bool) -> Seq<char> {
    if matches {
        OUTPUT_MATCHES@
    } else {
        OUTPUT_DIFFERS@
    }
}

/// The line that reports the integrity check.
pub open spec fn integrity_message_of(clean: bool) -> Seq<char> {
    if clean {
        ANSWER_ABSENT@
    } else {
        ANSWER_FOUND@
    }
}

/// Whether the actual output is exactly the expected one. Case, whitespace
/// and line ends count; nothing is trimmed.
pub fn check_output(expected_output: &str, actual_output: &str) -> (matches: bool)
    ensures
        matches == (expected_output@ == actual_output@),
{
    same_text(expected_output, actual_output)
}

/// Whether the expected output stands word for word in the helper code,
/// which makes the submission suspect. An empty expected output stands in
/// any helper code.
pub fn check_for_cheating(expected_output: &str, helper_code: &str) -> (suspect: bool)
    ensures
        suspect == occurs_in(helper_code@, expected_output@),
{
    contains_text(helper_code, expected_output)
}

/// Runs both checks.
pub fn verify(case: &TestCase, actual_output: &str, helper_code: &str) -> (verdict:
    VerificationVerdict)
    ensures
        verdict == verdict_of(case@, actual_output@, helper_code@),
{
    let output_matches = check_output(case.expected_output.as_str(), actual_output);
    let suspect = check_for_cheating(case.expected_output.as_str(), helper_code);
    VerificationVerdict { output_matches, integrity_clean: !suspect }
}

/// The line that reports the output check.
pub fn output_message(matches: bool) -> (line: String)
    ensures
        line@ == output_message_of(matches),
{
    if matches {
        String::from_str(OUTPUT_MATCHES)
    } else {
        String::from_str(OUTPUT_DIFFERS)
    }
}

/// The line that reports the integrity check.
pub fn integrity_message(clean: bool) -> (line: String)
    ensures
        line@ == integrity_message_of(clean),
{
    if clean {
        String::from_str(ANSWER_ABSENT)
    } else {
        String::from_str(ANSWER_FOUND)
    }
}

} // verus!
