use grading_harness::error::{ErrorKind, HarnessError};
use grading_harness::testdata::{read_test_data, split_first_line, TestCase};
use std::io::BufRead;

fn case(input: &str, expected_output: &str) -> TestCase {
    TestCase { input: String::from(input), expected_output: String::from(expected_output) }
}

#[test]
fn two_lines_are_input_and_expected_output() {
    assert_eq!(read_test_data(b"World\nHello, World!\n"), Ok(case("World", "Hello, World!")));
}

#[test]
fn last_line_needs_no_line_feed() {
    assert_eq!(read_test_data(b"World\nHello, World!"), Ok(case("World", "Hello, World!")));
}

#[test]
fn empty_data_gives_two_empty_strings() {
    assert_eq!(read_test_data(b""), Ok(case("", "")));
}

#[test]
fn missing_second_line_is_empty() {
    assert_eq!(read_test_data(b"only"), Ok(case("only", "")));
    assert_eq!(read_test_data(b"only\n"), Ok(case("only", "")));
}

#[test]
fn empty_first_line_is_kept() {
    assert_eq!(read_test_data(b"\nexpected\n"), Ok(case("", "expected")));
    assert_eq!(read_test_data(b"\n"), Ok(case("", "")));
    assert_eq!(read_test_data(b"\n\n"), Ok(case("", "")));
}

#[test]
fn lines_after_the_second_are_ignored() {
    assert_eq!(read_test_data(b"a\nb\nc\nd\n"), Ok(case("a", "b")));
}

#[test]
fn carriage_return_before_line_feed_is_dropped() {
    assert_eq!(read_test_data(b"in\r\nout\r\n"), Ok(case("in", "out")));
}

#[test]
fn only_one_carriage_return_is_dropped() {
    assert_eq!(read_test_data(b"in\r\r\nout\n"), Ok(case("in\r", "out")));
}

#[test]
fn carriage_return_without_line_feed_is_kept() {
    assert_eq!(read_test_data(b"in\nout\r"), Ok(case("in", "out\r")));
    assert_eq!(read_test_data(b"in\rout"), Ok(case("in\rout", "")));
}

#[test]
fn lone_carriage_return_line() {
    assert_eq!(read_test_data(b"\r\nout"), Ok(case("", "out")));
}

#[test]
fn spaces_are_not_trimmed() {
    assert_eq!(read_test_data(b" in \n out \n"), Ok(case(" in ", " out ")));
}

#[test]
fn text_beyond_ascii_is_decoded() {
    let content = "größe\n✅ fertig\n".as_bytes();
    assert_eq!(read_test_data(content), Ok(case("größe", "✅ fertig")));
}

#[test]
fn first_line_that_is_not_text_is_a_format_error() {
    assert_eq!(read_test_data(b"\xff\xfe\nout\n"), Err(HarnessError::DataFormat));
}

#[test]
fn second_line_that_is_not_text_is_a_format_error() {
    assert_eq!(read_test_data(b"in\n\xc3\n"), Err(HarnessError::DataFormat));
    assert_eq!(read_test_data(b"in\nab\x80"), Err(HarnessError::DataFormat));
}

#[test]
fn character_cut_by_the_line_end_is_a_format_error() {
    assert_eq!(read_test_data(b"\xc3\n\xb6\n"), Err(HarnessError::DataFormat));
}

#[test]
fn format_error_has_its_kind() {
    let error = read_test_data(b"\xff\n").unwrap_err();
    assert_eq!(error.kind(), ErrorKind::DataFormatError);
}

#[test]
fn bytes_after_the_second_line_need_not_be_text() {
    assert_eq!(read_test_data(b"in\nout\n\xff\xff"), Ok(case("in", "out")));
}

#[test]
fn split_gives_line_and_rest() {
    let (line, rest) = split_first_line(b"ab\ncd\nef");
    assert_eq!(line, b"ab");
    assert_eq!(rest, b"cd\nef");
    let (line, rest) = split_first_line(rest);
    assert_eq!(line, b"cd");
    assert_eq!(rest, b"ef");
    let (line, rest) = split_first_line(rest);
    assert_eq!(line, b"ef");
    assert_eq!(rest, b"");
    let (line, rest) = split_first_line(rest);
    assert_eq!(line, b"");
    assert_eq!(rest, b"");
}

#[test]
fn split_drops_the_line_end_only() {
    let (line, rest) = split_first_line(b"ab\r\ncd");
    assert_eq!(line, b"ab");
    assert_eq!(rest, b"cd");
    let (line, rest) = split_first_line(b"\n\ncd");
    assert_eq!(line, b"");
    assert_eq!(rest, b"\ncd");
    let (line, rest) = split_first_line(b"ab\r");
    assert_eq!(line, b"ab\r");
    assert_eq!(rest, b"");
}

#[test]
fn reading_agrees_with_the_standard_line_reader() {
    let samples: [&[u8]; 8] = [
        b"",
        b"a",
        b"a\n",
        b"a\nb",
        b"a\r\nb\r\n",
        b"\n\nc",
        b"a\rb\nc\r",
        b"x\ny\nz\n",
    ];
    for content in samples {
        let mut lines = std::io::BufReader::new(content).lines();
        let input = lines.next().unwrap_or(Ok(String::new())).unwrap();
        let expected_output = lines.next().unwrap_or(Ok(String::new())).unwrap();
        assert_eq!(read_test_data(content), Ok(TestCase { input, expected_output }));
    }
}
