//! The test-data record: two lines, the input and the expected output.
//!
//! A line ends at the first line feed, or at the end of the data when there
//! is none. The line feed is not part of the line, and neither is a carriage
//! return that stands directly before it. A line that is not there reads as
//! the empty string. Whatever follows the second line is ignored.

use vstd::prelude::*;
use vstd::slice::slice_subrange;
use vstd::string::StringSliceAdditionalSpecFns;
use vstd::utf8::{decode_utf8, encode_utf8_decode_utf8, valid_utf8};
use crate::error::{HarnessError, HarnessErrorView};

verus! {

pub const LINE_FEED: u8 = 10;

pub const CARRIAGE_RETURN: u8 = 13;

/// One case: what the submission is given and what it must print.
#[derive(Clone, Debug, PartialEq, Eq)]
pub struct TestCase {
    pub input: String,
    pub expected_output: String,
}

pub struct TestCaseView {
    pub input: Seq<char>,
    pub expected_output: Seq<char>,
}

impl View for TestCase {
    type V = TestCaseView;

    open spec fn view(&self) -> TestCaseView {
        TestCaseView { input: self.input@, expected_output: self.expected_output@ }
    }
}

/// How many bytes stand before the first line feed: all of them when there
/// is no line feed.
pub open spec fn line_length(bytes: Seq<u8>) -> nat
    decreases bytes.len(),
{
    if bytes.len() == 0 || bytes[0] == LINE_FEED {
        0
    } else {
        1 + line_length(bytes.drop_first())
    }
}

/// The first line of `bytes`, without its line end.
pub open spec fn first_line(bytes: Seq<u8>) -> Seq<u8> {
    let n = line_length(bytes) as int;
    if 0 < n < bytes.len() && bytes[n - 1] == CARRIAGE_RETURN {
        bytes.take(n - 1)
    } else {
        bytes.take(n)
    }
}

/// What follows the first line and its line feed.
pub open spec fn after_first_line(bytes: Seq<u8>) -> Seq<u8> {
    let n = line_length(bytes) as int;
    if n < bytes.len() {
        bytes.skip(n + 1)
    } else {
        Seq::empty()
    }
}

/// The second line of `bytes`, without its line end.
pub open spec fn second_line(bytes: Seq<u8>) -> Seq<u8> {
    first_line(after_first_line(bytes))
}

/// The data can be read: its first two lines are text.
pub open spec fn is_test_data(content: Seq<u8>) -> bool {
    valid_utf8(first_line(content)) && valid_utf8(second_line(content))
}

/// The case that readable data holds.
pub open spec fn test_case_of(content: Seq<u8>) -> TestCaseView {
    TestCaseView {
        input: decode_utf8(first_line(content)),
        expected_output: decode_utf8(second_line(content)),
    }
}

/// The position `n` is the line length of `bytes` when no line feed stands
/// before it and it is the end of the data or holds a line feed.
pub proof fn lemma_line_length(bytes: Seq<u8>, n: int)
    requires
        0 <= n <= bytes.len(),
        forall|i: int| 0 <= i < n ==> bytes[i] != LINE_FEED,
        n < bytes.len() ==> bytes[n] == LINE_FEED,
    ensures
        line_length(bytes) == n,
    decreases n,
{
    if n > 0 {
        let rest = bytes.drop_first();
        assert forall|i: int| 0 <= i < n - 1 implies rest[i] != LINE_FEED by {
            assert(rest[i] == bytes[i + 1]);
        }
        lemma_line_length(rest, n - 1);
    }
}

/// The text that `bytes` encode, if they are valid UTF-8.
///
/// Trusted: makes the call `core::str::from_utf8`. The contract says what
/// its documentation says: the call succeeds exactly on well-formed UTF-8,
/// and the string slice it returns is the same bytes.
#[verifier::external_body]
fn text_of(bytes: &[u8]) -> (text: Option<&str>)
    ensures
        text is Some <==> valid_utf8(bytes@),
        text matches Some(t) ==> t.spec_bytes() == bytes@,
{
    match core::str::from_utf8(bytes) {
        Ok(text) => Some(text),
        Err(_) => None,
    }
}

/// Splits `content` into its first line and what follows it.
pub fn split_first_line(content: &[u8]) -> (parts: (&[u8], &[u8]))
    ensures
        parts.0@ == first_line(content@),
        parts.1@ == after_first_line(content@),
{
    let len = content.len();
    let mut n: usize = 0;
    while n < len && content[n] != LINE_FEED
        invariant
            n <= len,
            len == content@.len(),
            forall|i: int| 0 <= i < n ==> content@[i] != LINE_FEED,
        decreases len - n,
    {
        n += 1;
    }
    proof {
        lemma_line_length(content@, n as int);
    }
    let rest = if n < len {
        slice_subrange(content, n + 1, len)
    } else {
        slice_subrange(content, len, len)
    };
    let line = if 0 < n && n < len && content[n - 1] == CARRIAGE_RETURN {
        slice_subrange(content, 0, n - 1)
    } else {
        slice_subrange(content, 0, n)
    };
    (line, rest)
}

/// Reads a test case from the content of a test-data file.
///
/// Fails only when one of the first two lines is not text; a missing line
/// is an empty string, not a failure.
pub fn read_test_data(content: &[u8]) -> (parsed: Result<TestCase, HarnessError>)
    ensures
        parsed is Ok <==> is_test_data(content@),
        parsed matches Ok(case) ==> case@ == test_case_of(content@),
        parsed matches Err(error) ==> error@ == HarnessErrorView::DataFormat,
{
    let (first, rest) = split_first_line(content);
    let (second, _) = split_first_line(rest);
    let input = match text_of(first) {
        Some(text) => text,
        None => {
            return Err(HarnessError::DataFormat);
        },
    };
    let expected_output = match text_of(second) {
        Some(text) => text,
        None => {
            return Err(HarnessError::DataFormat);
        },
    };
    proof {
        encode_utf8_decode_utf8(input@);
        encode_utf8_decode_utf8(expected_output@);
    }
    Ok(TestCase { input: input.to_owned(), expected_output: expected_output.to_owned() })
}

} // verus!
