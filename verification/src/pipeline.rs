//! The Harness Driver: which step of a run comes next.
//!
//! A run goes through its stages in one line: load the submission, build
//! it, run it, then verify the output against the test data and the helper
//! code. Any failure on the way stops the run for good. The driver itself
//! touches no file and starts no process. It says which action is due, the
//! caller performs it and hands back what it observed, and the driver
//! decides the next stage from that.
//!
//! The program's output is expected as a value: the caller that runs the
//! program forwards what it prints and keeps a copy for the output check.

use vstd::prelude::*;
use crate::builder::{build_result_of, classify_build, BuildResult, BuildResultView};
use crate::checks::{
    integrity_message, integrity_message_of, output_message, output_message_of, verdict_of,
    verify, VerificationVerdict,
};
use crate::error::{HarnessError, HarnessErrorView, InputFile, IoFailure, IoFailureView};
use crate::runner::{
    execution_outcome, outcome_of, timing_report, timing_report_of, Elapsed, ElapsedView,
    ExecutionOutcome, ExecutionOutcomeView,
};
use crate::testdata::{is_test_data, read_test_data, test_case_of, TestCase, TestCaseView};

verus! {

/// Where the files of a run are.
#[derive(Clone, Debug, PartialEq, Eq)]
pub struct HarnessConfig {
    /// The submitted source.
    pub staging_path: String,
    /// Where the compiler is asked to put what it builds.
    pub artifact_path: String,
    /// The record of input and expected output.
    pub test_data_path: String,
    /// The helper code that the integrity check reads.
    pub helper_path: String,
}

pub struct HarnessConfigView {
    pub staging_path: Seq<char>,
    pub artifact_path: Seq<char>,
    pub test_data_path: Seq<char>,
    pub helper_path: Seq<char>,
}

impl View for HarnessConfig {
    type V = HarnessConfigView;

    open spec fn view(&self) -> HarnessConfigView {
        HarnessConfigView {
            staging_path: self.staging_path@,
            artifact_path: self.artifact_path@,
            test_data_path: self.test_data_path@,
            helper_path: self.helper_path@,
        }
    }
}

/// The submitted source as it was read, with the place it was read from.
/// It is never parsed here: whether it is a program is the compiler's call.
#[derive(Clone, Debug, PartialEq, Eq)]
pub struct Submission {
    pub path: String,
    pub source: String,
}

pub struct SubmissionView {
    pub path: Seq<char>,
    pub source: Seq<char>,
}

impl View for Submission {
    type V = SubmissionView;

    open spec fn view(&self) -> SubmissionView {
        SubmissionView { path: self.path@, source: self.source@ }
    }
}

/// What a run that went through reports: the time and the two verdicts.
#[derive(Clone, Debug, PartialEq, Eq)]
pub struct RunReport {
    pub elapsed: Elapsed,
    pub verdict: VerificationVerdict,
}

pub struct RunReportView {
    pub elapsed: ElapsedView,
    pub verdict: VerificationVerdict,
}

impl View for RunReport {
    type V = RunReportView;

    open spec fn view(&self) -> RunReportView {
        RunReportView { elapsed: self.elapsed@, verdict: self.verdict }
    }
}

/// The stage a run is in, with what it has gathered so far.
#[derive(Clone, Debug, PartialEq, Eq)]
pub enum Stage {
    /// Waiting for the submission to be read.
    Load,
    /// Waiting for the compiler.
    Build { submission: Submission },
    /// Waiting for the built program to end.
    Run { artifact_path: String },
    /// The program ran; waiting for the test data.
    VerifyData { elapsed: Elapsed, output: String },
    /// The test data is read; waiting for the helper code.
    VerifyHelper { elapsed: Elapsed, output: String, case: TestCase },
    /// Both checks are done.
    Reported { report: RunReport },
    /// The run ended early.
    Stopped { error: HarnessError },
}

pub enum StageView {
    Load,
    Build { submission: SubmissionView },
    Run { artifact_path: Seq<char> },
    VerifyData { elapsed: ElapsedView, output: Seq<char> },
    VerifyHelper { elapsed: ElapsedView, output: Seq<char>, case: TestCaseView },
    Reported { report: RunReportView },
    Stopped { error: HarnessErrorView },
}

impl View for Stage {
    type V = StageView;

    open spec fn view(&self) -> StageView {
        match self {
            Stage::Load => StageView::Load,
            Stage::Build { submission } => StageView::Build { submission: submission@ },
            Stage::Run { artifact_path } => StageView::Run { artifact_path: artifact_path@ },
            Stage::VerifyData { elapsed, output } => StageView::VerifyData {
                elapsed: elapsed@,
                output: output@,
            },
            Stage::VerifyHelper { elapsed, output, case } => StageView::VerifyHelper {
                elapsed: elapsed@,
                output: output@,
                case: case@,
            },
            Stage::Reported { report } => StageView::Reported { report: report@ },
            Stage::Stopped { error } => StageView::Stopped { error: error@ },
        }
    }
}

/// What the caller observed when it performed an action.
#[derive(Clone, Debug, PartialEq, Eq)]
pub enum Event {
    /// The submission was read.
    SourceLoaded { source: String },
    /// The submission could not be read.
    SourceUnavailable { failure: IoFailure },
    /// The compiler ended, having written `diagnostics` to its error stream.
    CompilerExited { diagnostics: String },
    /// The program ended. `success` is its exit status, `elapsed` the time
    /// from just before its start to just after its end, `output` what it
    /// printed.
    ProgramExited { success: bool, elapsed: Elapsed, output: String },
    /// The test-data file was read.
    TestDataLoaded { content: Vec<u8> },
    /// The test-data file could not be read.
    TestDataUnavailable { failure: IoFailure },
    /// The helper code was read.
    HelperLoaded { code: String },
    /// The helper code could not be read.
    HelperUnavailable { failure: IoFailure },
}

pub enum EventView {
    SourceLoaded { source: Seq<char> },
    SourceUnavailable { failure: IoFailureView },
    CompilerExited { diagnostics: Seq<char> },
    ProgramExited { success: bool, elapsed: ElapsedView, output: Seq<char> },
    TestDataLoaded { content: Seq<u8> },
    TestDataUnavailable { failure: IoFailureView },
    HelperLoaded { code: Seq<char> },
    HelperUnavailable { failure: IoFailureView },
}

impl View for Event {
    type V = EventView;

    open spec fn view(&self) -> EventView {
        match self {
            Event::SourceLoaded { source } => EventView::SourceLoaded { source: source@ },
            Event::SourceUnavailable { failure } => EventView::SourceUnavailable {
                failure: failure@,
            },
            Event::CompilerExited { diagnostics } => EventView::CompilerExited {
                diagnostics: diagnostics@,
            },
            Event::ProgramExited { success, elapsed, output } => EventView::ProgramExited {
                success: *success,
                elapsed: elapsed@,
                output: output@,
            },
            Event::TestDataLoaded { content } => EventView::TestDataLoaded { content: content@ },
            Event::TestDataUnavailable { failure } => EventView::TestDataUnavailable {
                failure: failure@,
            },
            Event::HelperLoaded { code } => EventView::HelperLoaded { code: code@ },
            Event::HelperUnavailable { failure } => EventView::HelperUnavailable {
                failure: failure@,
            },
        }
    }
}

/// What the caller is asked to do next.
#[derive(Clone, Debug, PartialEq, Eq)]
pub enum Action {
    /// Read the submission at `path`.
    ReadSubmission { path: String },
    /// Start the compiler on `source_path`, asking for `output_path`, and
    /// collect its error stream.
    Compile { source_path: String, output_path: String },
    /// Start the program at `artifact_path` with no arguments and wait for
    /// it to end.
    Execute { artifact_path: String },
    /// Read the test-data file at `path`.
    ReadTestData { path: String },
    /// Read the helper code at `path`.
    ReadHelper { path: String },
    /// Nothing is left to do.
    Stop,
}

pub enum ActionView {
    ReadSubmission { path: Seq<char> },
    Compile { source_path: Seq<char>, output_path: Seq<char> },
    Execute { artifact_path: Seq<char> },
    ReadTestData { path: Seq<char> },
    ReadHelper { path: Seq<char> },
    Stop,
}

impl View for Action {
    type V = ActionView;

    open spec fn view(&self) -> ActionView {
        match self {
            Action::ReadSubmission { path } => ActionView::ReadSubmission { path: path@ },
            Action::Compile { source_path, output_path } => ActionView::Compile {
                source_path: source_path@,
                output_path: output_path@,
            },
            Action::Execute { artifact_path } => ActionView::Execute {
                artifact_path: artifact_path@,
            },
            Action::ReadTestData { path } => ActionView::ReadTestData { path: path@ },
            Action::ReadHelper { path } => ActionView::ReadHelper { path: path@ },
            Action::Stop => ActionView::Stop,
        }
    }
}

/// The stage that follows `stage` when `event` is observed. An event that
/// the stage is not waiting for changes nothing.
pub open spec fn next_stage(config: HarnessConfigView, stage: StageView, event: EventView) -> StageView {
    match stage {
        StageView::Load => match event {
            EventView::SourceLoaded { source } => StageView::Build {
                submission: SubmissionView { path: config.staging_path, source },
            },
            EventView::SourceUnavailable { failure } => StageView::Stopped {
                error: HarnessErrorView::Io { file: InputFile::Submission, failure },
            },
            _ => stage,
        },
        StageView::Build { .. } => match event {
            EventView::CompilerExited { diagnostics } => match build_result_of(
                config.artifact_path,
                diagnostics,
            ) {
                BuildResultView::Success { artifact_path } => StageView::Run { artifact_path },
                BuildResultView::Failure { diagnostics } => StageView::Stopped {
                    error: HarnessErrorView::Compile { diagnostics },
                },
            },
            _ => stage,
        },
        StageView::Run { .. } => match event {
            EventView::ProgramExited { success, elapsed, output } => match outcome_of(
                success,
                elapsed,
                output,
            ) {
                ExecutionOutcomeView::Completed { elapsed, output } => StageView::VerifyData {
                    elapsed,
                    output,
                },
                ExecutionOutcomeView::Failed => StageView::Stopped {
                    error: HarnessErrorView::Execution,
                },
            },
            _ => stage,
        },
        StageView::VerifyData { elapsed, output } => match event {
            EventView::TestDataLoaded { content } => if is_test_data(content) {
                StageView::VerifyHelper { elapsed, output, case: test_case_of(content) }
            } else {
                StageView::Stopped { error: HarnessErrorView::DataFormat }
            },
            EventView::TestDataUnavailable { failure } => StageView::Stopped {
                error: HarnessErrorView::Io { file: InputFile::TestData, failure },
            },
            _ => stage,
        },
        StageView::VerifyHelper { elapsed, output, case } => match event {
            EventView::HelperLoaded { code } => StageView::Reported {
                report: RunReportView { elapsed, verdict: verdict_of(case, output, code) },
            },
            EventView::HelperUnavailable { failure } => StageView::Stopped {
                error: HarnessErrorView::Io { file: InputFile::Helper, failure },
            },
            _ => stage,
        },
        StageView::Reported { .. } => stage,
        StageView::Stopped { .. } => stage,
    }
}

/// The action that is due in `stage`.
pub open spec fn action_of(config: HarnessConfigView, stage: StageView) -> ActionView {
    match stage {
        StageView::Load => ActionView::ReadSubmission { path: config.staging_path },
        StageView::Build { submission } => ActionView::Compile {
            source_path: submission.path,
            output_path: config.artifact_path,
        },
        StageView::Run { artifact_path } => ActionView::Execute { artifact_path },
        StageView::VerifyData { .. } => ActionView::ReadTestData { path: config.test_data_path },
        StageView::VerifyHelper { .. } => ActionView::ReadHelper { path: config.helper_path },
        StageView::Reported { .. } => ActionView::Stop,
        StageView::Stopped { .. } => ActionView::Stop,
    }
}

/// The lines that `stage` has for the console: the two verdicts and the
/// time of a run that went through, the failure of one that stopped, and
/// nothing while the run is under way.
pub open spec fn report_of(stage: StageView) -> Seq<Seq<char>> {
    match stage {
        StageView::Reported { report } => seq![
            integrity_message_of(report.verdict.integrity_clean),
            output_message_of(report.verdict.output_matches),
            timing_report_of(report.elapsed),
        ],
        StageView::Stopped { error } => seq![error.message()],
        _ => Seq::empty(),
    }
}

/// One run of the harness: its configuration and the stage it is in.
#[derive(Clone, Debug, PartialEq, Eq)]
pub struct Pipeline {
    pub config: HarnessConfig,
    pub stage: Stage,
}

pub struct PipelineView {
    pub config: HarnessConfigView,
    pub stage: StageView,
}

impl View for Pipeline {
    type V = PipelineView;

    open spec fn view(&self) -> PipelineView {
        PipelineView { config: self.config@, stage: self.stage@ }
    }
}

impl PipelineView {
    /// The run after `event` is observed.
    pub open spec fn step(self, event: EventView) -> PipelineView {
        PipelineView { config: self.config, stage: next_stage(self.config, self.stage, event) }
    }

    /// The action that is due.
    pub open spec fn action(self) -> ActionView {
        action_of(self.config, self.stage)
    }

    /// No action is due any more.
    pub open spec fn is_done(self) -> bool {
        self.stage is Reported || self.stage is Stopped
    }
}

impl Pipeline {
    /// A fresh run. Every run starts by loading the submission.
    pub fn new(config: HarnessConfig) -> (pipeline: Pipeline)
        ensures
            pipeline@ == (PipelineView { config: config@, stage: StageView::Load }),
    {
        Pipeline { config, stage: Stage::Load }
    }

    /// The action that is due.
    pub fn action(&self) -> (action: Action)
        ensures
            action@ == self@.action(),
    {
        match &self.stage {
            Stage::Load => Action::ReadSubmission { path: self.config.staging_path.clone() },
            Stage::Build { submission } => Action::Compile {
                source_path: submission.path.clone(),
                output_path: self.config.artifact_path.clone(),
            },
            Stage::Run { artifact_path } => Action::Execute {
                artifact_path: artifact_path.clone(),
            },
            Stage::VerifyData { .. } => Action::ReadTestData {
                path: self.config.test_data_path.clone(),
            },
            Stage::VerifyHelper { .. } => Action::ReadHelper {
                path: self.config.helper_path.clone(),
            },
            Stage::Reported { .. } => Action::Stop,
            Stage::Stopped { .. } => Action::Stop,
        }
    }

    /// Whether the run has ended, with a report or with a failure.
    pub fn is_done(&self) -> (done: bool)
        ensures
            done == self@.is_done(),
    {
        match &self.stage {
            Stage::Reported { .. } => true,
            Stage::Stopped { .. } => true,
            _ => false,
        }
    }

    /// Takes in what the caller observed and moves to the next stage.
    pub fn step(self, event: Event) -> (next: Pipeline)
        ensures
            next@ == self@.step(event@),
    {
        let Pipeline { config, stage } = self;
        let next = match stage {
            Stage::Load => match event {
                Event::SourceLoaded { source } => Stage::Build {
                    submission: Submission { path: config.staging_path.clone(), source },
                },
                Event::SourceUnavailable { failure } => Stage::Stopped {
                    error: HarnessError::Io { file: InputFile::Submission, failure },
                },
                _ => Stage::Load,
            },
            Stage::Build { submission } => match event {
                Event::CompilerExited { diagnostics } => match classify_build(
                    config.artifact_path.clone(),
                    diagnostics,
                ) {
                    BuildResult::Success { artifact_path } => Stage::Run { artifact_path },
                    BuildResult::Failure { diagnostics } => Stage::Stopped {
                        error: HarnessError::Compile { diagnostics },
                    },
                },
                _ => Stage::Build { submission },
            },
            Stage::Run { artifact_path } => match event {
                Event::ProgramExited { success, elapsed, output } => match execution_outcome(
                    success,
                    elapsed,
                    output,
                ) {
                    ExecutionOutcome::Completed { elapsed, output } => Stage::VerifyData {
                        elapsed,
                        output,
                    },
                    ExecutionOutcome::Failed => Stage::Stopped { error: HarnessError::Execution },
                },
                _ => Stage::Run { artifact_path },
            },
            Stage::VerifyData { elapsed, output } => match event {
                Event::TestDataLoaded { content } => match read_test_data(content.as_slice()) {
                    Ok(case) => Stage::VerifyHelper { elapsed, output, case },
                    Err(error) => Stage::Stopped { error },
                },
                Event::TestDataUnavailable { failure } => Stage::Stopped {
                    error: HarnessError::Io { file: InputFile::TestData, failure },
                },
                _ => Stage::VerifyData { elapsed, output },
            },
            Stage::VerifyHelper { elapsed, output, case } => match event {
                Event::HelperLoaded { code } => {
                    let verdict = verify(&case, output.as_str(), code.as_str());
                    Stage::Reported { report: RunReport { elapsed, verdict } }
                },
                Event::HelperUnavailable { failure } => Stage::Stopped {
                    error: HarnessError::Io { file: InputFile::Helper, failure },
                },
                _ => Stage::VerifyHelper { elapsed, output, case },
            },
            Stage::Reported { report } => Stage::Reported { report },
            Stage::Stopped { error } => Stage::Stopped { error },
        };
        Pipeline { config, stage: next }
    }

    /// The lines for the console, in the order they are shown.
    pub fn report(&self) -> (lines: Vec<String>)
        ensures
            lines.deep_view() == report_of(self@.stage),
    {
        let mut lines: Vec<String> = Vec::new();
        match &self.stage {
            Stage::Reported { report } => {
                lines.push(integrity_message(report.verdict.integrity_clean));
                lines.push(output_message(report.verdict.output_matches));
                lines.push(timing_report(&report.elapsed));
            },
            Stage::Stopped { error } => {
                lines.push(error.message());
            },
            _ => {},
        }
        proof {
            assert(lines.deep_view() =~= report_of(self@.stage));
        }
        lines
    }
}

} // verus!
