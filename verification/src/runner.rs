//! The Runner's account of one execution: how long it took and how it ended.
//!
//! The caller starts the program, forwards what it prints while keeping a
//! copy, and measures the time from just before the start to just after the
//! end. The outcome is built here from those plain values.

use vstd::prelude::*;
use vstd::string::StringExecFns;

verus! {

pub const NANOS_PER_SEC: u32 = 1_000_000_000;

pub const NANOS_PER_MILLI: u32 = 1_000_000;

pub const MILLIS_PER_SEC: u64 = 1_000;

/// The label in front of a reported time.
pub const EXECUTION_TIME: &'static str = "Execution time: ";

/// A span of wall-clock time: whole seconds and the nanoseconds beyond them.
/// It cannot be negative, and the nanoseconds are always less than a second.
#[derive(Clone, Copy, Debug, PartialEq, Eq)]
pub struct Elapsed {
    secs: u64,
    subsec_nanos: u32,
}

pub struct ElapsedView {
    pub secs: nat,
    pub subsec_nanos: nat,
}

impl ElapsedView {
    /// The whole span in nanoseconds.
    pub open spec fn total_nanos(self) -> nat {
        self.secs * (NANOS_PER_SEC as nat) + self.subsec_nanos
    }

    /// The whole milliseconds in the span.
    pub open spec fn millis(self) -> nat {
        self.secs * (MILLIS_PER_SEC as nat) + self.subsec_nanos / (NANOS_PER_MILLI as nat)
    }
}

impl View for Elapsed {
    type V = ElapsedView;

    closed spec fn view(&self) -> ElapsedView {
        ElapsedView { secs: self.secs as nat, subsec_nanos: self.subsec_nanos as nat }
    }
}

impl Elapsed {
    #[verifier::type_invariant]
    spec fn well_formed(self) -> bool {
        self.subsec_nanos < NANOS_PER_SEC
    }

    /// A span of `secs` seconds and `subsec_nanos` nanoseconds, if the
    /// nanoseconds are less than a second.
    pub fn new(secs: u64, subsec_nanos: u32) -> (elapsed: Option<Elapsed>)
        ensures
            elapsed is Some <==> subsec_nanos < NANOS_PER_SEC,
            elapsed matches Some(e) ==> e@ == (ElapsedView {
                secs: secs as nat,
                subsec_nanos: subsec_nanos as nat,
            }),
    {
        if subsec_nanos < NANOS_PER_SEC {
            Some(Elapsed { secs, subsec_nanos })
        } else {
            None
        }
    }

    pub fn secs(&self) -> (secs: u64)
        ensures
            secs == self@.secs,
    {
        self.secs
    }

    pub fn subsec_nanos(&self) -> (nanos: u32)
        ensures
            nanos == self@.subsec_nanos,
            nanos < NANOS_PER_SEC,
    {
        proof {
            use_type_invariant(self);
        }
        self.subsec_nanos
    }

    /// The whole milliseconds in the span.
    pub fn as_millis(&self) -> (millis: u128)
        ensures
            millis == self@.millis(),
    {
        let secs: u128 = self.secs as u128;
        let nanos: u128 = self.subsec_nanos as u128;
        assert(secs * MILLIS_PER_SEC <= u64::MAX * MILLIS_PER_SEC) by (nonlinear_arith)
            requires
                secs <= u64::MAX,
        ;
        let whole: u128 = secs * (MILLIS_PER_SEC as u128);
        let part: u128 = nanos / (NANOS_PER_MILLI as u128);
        whole + part
    }
}

/// The text that the standard formatting of a time span gives for `secs`
/// seconds and `subsec_nanos` nanoseconds, with three digits after the point.
pub uninterp spec fn duration_text(secs: int, subsec_nanos: int) -> Seq<char>;

/// Trusted: builds a `core::time::Duration` and formats it with `{:.3?}`,
/// its `Debug` form at precision three. The text depends on the two numbers
/// alone, and the contract only gives it its name. With the nanoseconds
/// below a second the duration is built without carry, so nothing overflows.
#[verifier::external_body]
fn format_duration(secs: u64, subsec_nanos: u32) -> (text: String)
    requires
        subsec_nanos < NANOS_PER_SEC,
    ensures
        text@ == duration_text(secs as int, subsec_nanos as int),
{
    format!("{:.3?}", core::time::Duration::new(secs, subsec_nanos))
}

/// The line that reports a time, from the time already put into words.
pub open spec fn timing_line_of(elapsed_text: Seq<char>) -> Seq<char> {
    EXECUTION_TIME@ + elapsed_text
}

/// The line that reports a time span.
pub open spec fn timing_report_of(elapsed: ElapsedView) -> Seq<char> {
    timing_line_of(duration_text(elapsed.secs as int, elapsed.subsec_nanos as int))
}

/// The report line for a time that has already been put into words.
pub fn timing_line(elapsed_text: &str) -> (line: String)
    ensures
        line@ == timing_line_of(elapsed_text@),
{
    let mut line = String::from_str(EXECUTION_TIME);
    line.append(elapsed_text);
    line
}

/// The report line for a measured time.
pub fn timing_report(elapsed: &Elapsed) -> (line: String)
    ensures
        line@ == timing_report_of(elapsed@),
{
    let text = format_duration(elapsed.secs(), elapsed.subsec_nanos());
    timing_line(text.as_str())
}

/// How an execution ended. A run that did not end in success reports no
/// time and no output.
#[derive(Clone, Debug, PartialEq, Eq)]
pub enum ExecutionOutcome {
    Completed { elapsed: Elapsed, output: String },
    Failed,
}

pub enum ExecutionOutcomeView {
    Completed { elapsed: ElapsedView, output: Seq<char> },
    Failed,
}

impl View for ExecutionOutcome {
    type V = ExecutionOutcomeView;

    open spec fn view(&self) -> ExecutionOutcomeView {
        match self {
            ExecutionOutcome::Completed { elapsed, output } => ExecutionOutcomeView::Completed {
                elapsed: elapsed@,
                output: output@,
            },
            ExecutionOutcome::Failed => ExecutionOutcomeView::Failed,
        }
    }
}

/// The outcome of a program that exited with success or not, after
/// `elapsed`, having printed `output`.
pub open spec fn outcome_of(
    success: bool,
    elapsed: ElapsedView,
    output: Seq<char>,
) -> ExecutionOutcomeView {
    if success {
        ExecutionOutcomeView::Completed { elapsed, output }
    } else {
        ExecutionOutcomeView::Failed
    }
}

/// Builds the outcome of a finished execution.
pub fn execution_outcome(success: bool, elapsed: Elapsed, output: String) -> (outcome:
    ExecutionOutcome)
    ensures
        outcome@ == outcome_of(success, elapsed@, output@),
{
    if success {
        ExecutionOutcome::Completed { elapsed, output }
    } else {
        ExecutionOutcome::Failed
    }
}

/// An execution has exactly one outcome: completed when the program exited
/// with success, failed when it did not, never both. A completed one
/// reports the measured time, which is not negative.
pub proof fn outcome_is_single(success: bool, elapsed: ElapsedView, output: Seq<char>)
    ensures
        (outcome_of(success, elapsed, output) is Completed) != (outcome_of(
            success,
            elapsed,
            output,
        ) is Failed),
        outcome_of(success, elapsed, output) is Completed <==> success,
        success ==> outcome_of(success, elapsed, output)->elapsed == elapsed
            && outcome_of(success, elapsed, output)->elapsed.total_nanos() >= 0,
{
}

} // verus!
