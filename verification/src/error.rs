//! The ways a run can end early.

use vstd::prelude::*;
use vstd::string::StringExecFns;

verus! {

/// The broad class of a failure.
#[derive(Clone, Copy, Debug, PartialEq, Eq, Structural)]
pub enum ErrorKind {
    /// A file the harness needs is missing or cannot be read.
    IoError,
    /// The compiler said something about the submission.
    CompileError,
    /// The built program ended with a status other than success.
    ExecutionError,
    /// The test data is not text.
    DataFormatError,
}

/// The files a run reads.
#[derive(Clone, Copy, Debug, PartialEq, Eq, Structural)]
pub enum InputFile {
    /// The submitted source, at its staging place.
    Submission,
    /// The record of input and expected output.
    TestData,
    /// The helper code that is searched for the expected output.
    Helper,
}

/// Why a file could not be had.
#[derive(Clone, Copy, Debug, PartialEq, Eq, Structural)]
pub enum IoCause {
    /// Nothing is at the path.
    NotFound,
    /// Something is there, but reading it failed.
    Unreadable,
}

/// A failed read, as the caller that tried it describes it.
#[derive(Clone, Debug, PartialEq, Eq)]
pub struct IoFailure {
    pub cause: IoCause,
    /// The system's own words for the failure.
    pub detail: String,
}

pub struct IoFailureView {
    pub cause: IoCause,
    pub detail: Seq<char>,
}

impl View for IoFailure {
    type V = IoFailureView;

    open spec fn view(&self) -> IoFailureView {
        IoFailureView { cause: self.cause, detail: self.detail@ }
    }
}

/// A failure that ends the run. None is retried.
#[derive(Clone, Debug, PartialEq, Eq)]
pub enum HarnessError {
    /// One of the input files could not be read.
    Io { file: InputFile, failure: IoFailure },
    /// The compiler wrote diagnostics; they are kept word for word.
    Compile { diagnostics: String },
    /// The program ran and did not end in success.
    Execution,
    /// One of the first two lines of the test data is not valid UTF-8.
    DataFormat,
}

pub enum HarnessErrorView {
    Io { file: InputFile, failure: IoFailureView },
    Compile { diagnostics: Seq<char> },
    Execution,
    DataFormat,
}

impl View for HarnessError {
    type V = HarnessErrorView;

    open spec fn view(&self) -> HarnessErrorView {
        match self {
            HarnessError::Io { file, failure } => HarnessErrorView::Io {
                file: *file,
                failure: failure@,
            },
            HarnessError::Compile { diagnostics } => HarnessErrorView::Compile {
                diagnostics: diagnostics@,
            },
            HarnessError::Execution => HarnessErrorView::Execution,
            HarnessError::DataFormat => HarnessErrorView::DataFormat,
        }
    }
}

/// Said before the system's words when the submission cannot be read.
pub const SUBMISSION_UNREADABLE: &'static str = "❌ Failed to read submission: ";

/// Said before the reason when the test data cannot be read.
pub const TEST_DATA_UNREADABLE: &'static str = "❌ Failed to read test data: ";

/// Said before the system's words when the helper code cannot be read.
pub const HELPER_UNREADABLE: &'static str = "Failed to read helper.rs: ";

/// The reason given for test data that is not valid UTF-8.
pub const NOT_TEXT: &'static str = "stream did not contain valid UTF-8";

/// Said when the program did not end in success.
pub const EXECUTION_FAILED: &'static str = "execution failed";

/// What is said before the system's words when `file` cannot be read.
pub open spec fn unreadable_prefix(file: InputFile) -> Seq<char> {
    match file {
        InputFile::Submission => SUBMISSION_UNREADABLE@,
        InputFile::TestData => TEST_DATA_UNREADABLE@,
        InputFile::Helper => HELPER_UNREADABLE@,
    }
}

impl HarnessErrorView {
    /// The class of the failure. A missing file and an unreadable one are
    /// both I/O errors.
    pub open spec fn kind(self) -> ErrorKind {
        match self {
            HarnessErrorView::Io { .. } => ErrorKind::IoError,
            HarnessErrorView::Compile { .. } => ErrorKind::CompileError,
            HarnessErrorView::Execution => ErrorKind::ExecutionError,
            HarnessErrorView::DataFormat => ErrorKind::DataFormatError,
        }
    }

    /// The line shown to the user. Diagnostics are shown as the compiler
    /// wrote them.
    pub open spec fn message(self) -> Seq<char> {
        match self {
            HarnessErrorView::Io { file, failure } => unreadable_prefix(file) + failure.detail,
            HarnessErrorView::Compile { diagnostics } => diagnostics,
            HarnessErrorView::Execution => EXECUTION_FAILED@,
            HarnessErrorView::DataFormat => TEST_DATA_UNREADABLE@ + NOT_TEXT@,
        }
    }
}

impl HarnessError {
    pub fn kind(&self) -> (kind: ErrorKind)
        ensures
            kind == self@.kind(),
    {
        match self {
            HarnessError::Io { .. } => ErrorKind::IoError,
            HarnessError::Compile { .. } => ErrorKind::CompileError,
            HarnessError::Execution => ErrorKind::ExecutionError,
            HarnessError::DataFormat => ErrorKind::DataFormatError,
        }
    }

    pub fn message(&self) -> (text: String)
        ensures
            text@ == self@.message(),
    {
        match self {
            HarnessError::Io { file, failure } => {
                let prefix = match file {
                    InputFile::Submission => SUBMISSION_UNREADABLE,
                    InputFile::TestData => TEST_DATA_UNREADABLE,
                    InputFile::Helper => HELPER_UNREADABLE,
                };
                let mut text = String::from_str(prefix);
                text.append(failure.detail.as_str());
                text
            },
            HarnessError::Compile { diagnostics } => diagnostics.clone(),
            HarnessError::Execution => String::from_str(EXECUTION_FAILED),
            HarnessError::DataFormat => {
                let mut text = String::from_str(TEST_DATA_UNREADABLE);
                text.append(NOT_TEXT);
                text
            },
        }
    }
}

} // verus!
