use grading_harness::builder::{classify_build, BuildResult};
use grading_harness::error::{ErrorKind, HarnessError, InputFile, IoCause, IoFailure};
use grading_harness::runner::{
    execution_outcome, timing_line, timing_report, Elapsed, ExecutionOutcome,
};

fn span(secs: u64, subsec_nanos: u32) -> Elapsed {
    Elapsed::new(secs, subsec_nanos).unwrap()
}

#[test]
fn build_without_diagnostics_succeeds() {
    assert_eq!(
        classify_build(String::from("out/program"), String::new()),
        BuildResult::Success { artifact_path: String::from("out/program") }
    );
}

#[test]
fn build_with_an_error_fails_with_its_text() {
    let diagnostics = "error: expected one of `!` or `::`, found `main`\n --> helper.rs:1:4\n";
    assert_eq!(
        classify_build(String::from("out/program"), String::from(diagnostics)),
        BuildResult::Failure { diagnostics: String::from(diagnostics) }
    );
}

#[test]
fn build_with_a_single_warning_fails() {
    let diagnostics = "warning: unused variable: `x`\n";
    assert_eq!(
        classify_build(String::from("out/program"), String::from(diagnostics)),
        BuildResult::Failure { diagnostics: String::from(diagnostics) }
    );
}

#[test]
fn build_with_blank_diagnostics_fails() {
    assert_eq!(
        classify_build(String::from("out/program"), String::from("\n")),
        BuildResult::Failure { diagnostics: String::from("\n") }
    );
    assert_eq!(
        classify_build(String::from("out/program"), String::from(" ")),
        BuildResult::Failure { diagnostics: String::from(" ") }
    );
}

#[test]
fn elapsed_takes_nanoseconds_below_a_second() {
    assert!(Elapsed::new(0, 0).is_some());
    assert!(Elapsed::new(0, 999_999_999).is_some());
    assert!(Elapsed::new(u64::MAX, 999_999_999).is_some());
}

#[test]
fn elapsed_refuses_a_full_second_of_nanoseconds() {
    assert_eq!(Elapsed::new(0, 1_000_000_000), None);
    assert_eq!(Elapsed::new(5, u32::MAX), None);
}

#[test]
fn elapsed_hands_back_its_parts() {
    let elapsed = span(3, 141_592_653);
    assert_eq!(elapsed.secs(), 3);
    assert_eq!(elapsed.subsec_nanos(), 141_592_653);
}

#[test]
fn elapsed_in_whole_milliseconds() {
    assert_eq!(span(0, 0).as_millis(), 0);
    assert_eq!(span(0, 999_999).as_millis(), 0);
    assert_eq!(span(0, 1_000_000).as_millis(), 1);
    assert_eq!(span(2, 345_678_901).as_millis(), 2_345);
    assert_eq!(span(u64::MAX, 999_999_999).as_millis(), 18_446_744_073_709_551_615_999);
}

#[test]
fn elapsed_milliseconds_agree_with_the_standard_duration() {
    let parts = [(0, 0), (0, 1), (1, 0), (59, 999_999_999), (86_400, 500_000_000)];
    for (secs, nanos) in parts {
        let expected = std::time::Duration::new(secs, nanos).as_millis();
        assert_eq!(span(secs, nanos).as_millis(), expected);
    }
}

#[test]
fn timing_report_in_seconds() {
    assert_eq!(timing_report(&span(1, 500_000_000)), "Execution time: 1.500s");
    assert_eq!(timing_report(&span(1, 234_567_890)), "Execution time: 1.235s");
    assert_eq!(timing_report(&span(42, 0)), "Execution time: 42.000s");
}

#[test]
fn timing_report_in_milliseconds() {
    assert_eq!(timing_report(&span(0, 12_000_000)), "Execution time: 12.000ms");
    assert_eq!(timing_report(&span(0, 1_234_567)), "Execution time: 1.235ms");
}

#[test]
fn timing_report_in_microseconds() {
    assert_eq!(timing_report(&span(0, 250_000)), "Execution time: 250.000µs");
}

#[test]
fn timing_report_in_nanoseconds() {
    assert_eq!(timing_report(&span(0, 7)), "Execution time: 7.000ns");
    assert_eq!(timing_report(&span(0, 0)), "Execution time: 0.000ns");
}

#[test]
fn timing_line_puts_the_label_first() {
    assert_eq!(timing_line("3.000s"), "Execution time: 3.000s");
    assert_eq!(timing_line(""), "Execution time: ");
}

#[test]
fn successful_exit_completes_with_time_and_output() {
    assert_eq!(
        execution_outcome(true, span(0, 5_000_000), String::from("Hello")),
        ExecutionOutcome::Completed { elapsed: span(0, 5_000_000), output: String::from("Hello") }
    );
}

#[test]
fn failing_exit_reports_no_time() {
    assert_eq!(
        execution_outcome(false, span(9, 0), String::from("partial")),
        ExecutionOutcome::Failed
    );
}

#[test]
fn outcome_is_never_both() {
    for success in [true, false] {
        let outcome = execution_outcome(success, span(1, 0), String::new());
        let completed = matches!(outcome, ExecutionOutcome::Completed { .. });
        let failed = matches!(outcome, ExecutionOutcome::Failed);
        assert_ne!(completed, failed);
        assert_eq!(completed, success);
    }
}

fn failure(cause: IoCause, detail: &str) -> IoFailure {
    IoFailure { cause, detail: String::from(detail) }
}

#[test]
fn error_kinds() {
    let missing = failure(IoCause::NotFound, "No such file or directory (os error 2)");
    let denied = failure(IoCause::Unreadable, "Permission denied (os error 13)");
    assert_eq!(
        HarnessError::Io { file: InputFile::Submission, failure: missing }.kind(),
        ErrorKind::IoError
    );
    assert_eq!(
        HarnessError::Io { file: InputFile::Helper, failure: denied }.kind(),
        ErrorKind::IoError
    );
    assert_eq!(
        HarnessError::Compile { diagnostics: String::from("error") }.kind(),
        ErrorKind::CompileError
    );
    assert_eq!(HarnessError::Execution.kind(), ErrorKind::ExecutionError);
    assert_eq!(HarnessError::DataFormat.kind(), ErrorKind::DataFormatError);
}

#[test]
fn io_error_messages_name_the_file() {
    let detail = "No such file or directory (os error 2)";
    assert_eq!(
        HarnessError::Io {
            file: InputFile::Submission,
            failure: failure(IoCause::NotFound, detail),
        }.message(),
        "❌ Failed to read submission: No such file or directory (os error 2)"
    );
    assert_eq!(
        HarnessError::Io {
            file: InputFile::TestData,
            failure: failure(IoCause::NotFound, detail),
        }.message(),
        "❌ Failed to read test data: No such file or directory (os error 2)"
    );
    assert_eq!(
        HarnessError::Io {
            file: InputFile::Helper,
            failure: failure(IoCause::Unreadable, "Permission denied (os error 13)"),
        }.message(),
        "Failed to read helper.rs: Permission denied (os error 13)"
    );
}

#[test]
fn compile_error_message_is_the_diagnostics() {
    let diagnostics = "warning: unused variable: `x`\n  |\n";
    assert_eq!(
        HarnessError::Compile { diagnostics: String::from(diagnostics) }.message(),
        diagnostics
    );
}

#[test]
fn execution_error_message() {
    assert_eq!(HarnessError::Execution.message(), "execution failed");
}

#[test]
fn format_error_message() {
    assert_eq!(
        HarnessError::DataFormat.message(),
        "❌ Failed to read test data: stream did not contain valid UTF-8"
    );
}
