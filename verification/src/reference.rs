//! Reference answers and the comparison of a run against them.
//!
//! A reference answer is written as a text whose last line is the expected
//! exit code and whose other lines are the expected output.

use vstd::prelude::*;
use crate::decimal::{exit_code_of, parse_exit_code};
use crate::text::{is_line, join_lines, lemma_written_lines_read_back, lines_of, split_lines};

verus! {

/// What a correct run prints and how it exits.
#[derive(Clone, Debug, PartialEq, Eq)]
pub struct ReferenceAnswer {
    pub lines: Vec<String>,
    pub exit_code: i32,
}

/// The mathematical content of a [`ReferenceAnswer`].
pub struct ReferenceAnswerView {
    pub lines: Seq<Seq<char>>,
    pub exit_code: i32,
}

impl View for ReferenceAnswer {
    type V = ReferenceAnswerView;

    open spec fn view(&self) -> ReferenceAnswerView {
        ReferenceAnswerView { lines: self.lines.deep_view(), exit_code: self.exit_code }
    }
}

/// Why a text is no reference answer.
#[derive(Clone, Copy, Debug, PartialEq, Eq, Structural)]
pub enum ReferenceError {
    /// There is no line at all, so no exit code.
    Empty,
    /// The last line is not a 32-bit decimal integer.
    MalformedExitCode,
}

/// The reference answer that a sequence of lines writes down.
pub open spec fn answer_of_lines(lines: Seq<Seq<char>>) -> Result<
    ReferenceAnswerView,
    ReferenceError,
> {
    if lines.len() == 0 {
        Err(ReferenceError::Empty)
    } else {
        match exit_code_of(lines.last()) {
            Some(code) => Ok(ReferenceAnswerView { lines: lines.drop_last(), exit_code: code }),
            None => Err(ReferenceError::MalformedExitCode),
        }
    }
}

/// The reference answer that a text writes down.
pub open spec fn answer_of_text(text: Seq<char>) -> Result<ReferenceAnswerView, ReferenceError> {
    answer_of_lines(lines_of(text))
}

/// Whether a run with the given output and exit code agrees with what was
/// expected. A run that ended without an exit code agrees with nothing.
pub open spec fn agrees(
    expected_lines: Seq<Seq<char>>,
    expected_exit_code: i32,
    actual_lines: Seq<Seq<char>>,
    actual_exit_code: Option<i32>,
) -> bool {
    actual_exit_code == Some(expected_exit_code) && actual_lines == expected_lines
}

/// Reads the lines of a reference file: the last one is the expected exit
/// code, those before it are the expected output.
pub fn get_answer(lines: Vec<String>) -> (answer: Result<ReferenceAnswer, ReferenceError>)
    ensures
        match answer {
            Ok(a) => answer_of_lines(lines.deep_view()) == Ok::<_, ReferenceError>(a@),
            Err(e) => answer_of_lines(lines.deep_view()) == Err::<ReferenceAnswerView, _>(e),
        },
{
    let mut lines = lines;
    let ghost all = lines.deep_view();
    match lines.pop() {
        None => Err(ReferenceError::Empty),
        Some(last) => {
            assert(last@ == all.last());
            assert(lines.deep_view() =~= all.drop_last());
            match parse_exit_code(last.as_str()) {
                Some(code) => Ok(ReferenceAnswer { lines, exit_code: code }),
                None => Err(ReferenceError::MalformedExitCode),
            }
        },
    }
}

/// Reads a reference file given as one text.
pub fn read_answer(text: &str) -> (answer: Result<ReferenceAnswer, ReferenceError>)
    ensures
        match answer {
            Ok(a) => answer_of_text(text@) == Ok::<_, ReferenceError>(a@),
            Err(e) => answer_of_text(text@) == Err::<ReferenceAnswerView, _>(e),
        },
{
    get_answer(split_lines(text))
}

/// Whether two sequences of lines are the same: as many lines, and each line
/// identical to the one at its position.
pub fn same_lines(left: &Vec<String>, right: &Vec<String>) -> (same: bool)
    ensures
        same == (left.deep_view() == right.deep_view()),
        same <==> left.len() == right.len() && forall|i: int|
            0 <= i < left.len() ==> left[i]@ == right[i]@,
{
    if left.len() != right.len() {
        assert(left.deep_view().len() != right.deep_view().len());
        return false;
    }
    let mut i: usize = 0;
    while i < left.len()
        invariant
            left.len() == right.len(),
            0 <= i <= left.len(),
            forall|j: int| 0 <= j < i ==> left[j]@ == right[j]@,
        decreases left.len() - i,
    {
        if left[i] != right[i] {
            assert(left.deep_view()[i as int] != right.deep_view()[i as int]);
            return false;
        }
        i += 1;
    }
    assert(left.deep_view() =~= right.deep_view());
    true
}

/// The comparator: a run matches when it exited with the expected code and
/// printed exactly the expected lines.
pub fn outputs_match(
    expected_lines: &Vec<String>,
    expected_exit_code: i32,
    actual_lines: &Vec<String>,
    actual_exit_code: Option<i32>,
) -> (matched: bool)
    ensures
        matched == agrees(
            expected_lines.deep_view(),
            expected_exit_code,
            actual_lines.deep_view(),
            actual_exit_code,
        ),
{
    match actual_exit_code {
        Some(code) => code == expected_exit_code && same_lines(actual_lines, expected_lines),
        None => false,
    }
}

/// A reference text of `n` lines yields `n - 1` expected output lines, the
/// first `n - 1` of the text in their order, and the exit code written on
/// line `n`. It is refused exactly when it has no line or when its last line
/// does not write a 32-bit integer.
pub proof fn lemma_answer_shape(text: Seq<char>)
    ensures
        match answer_of_text(text) {
            Ok(a) => {
                &&& lines_of(text).len() >= 1
                &&& a.lines.len() == lines_of(text).len() - 1
                &&& forall|i: int| 0 <= i < a.lines.len() ==> a.lines[i] == lines_of(text)[i]
                &&& exit_code_of(lines_of(text).last()) == Some(a.exit_code)
            },
            Err(ReferenceError::Empty) => lines_of(text).len() == 0,
            Err(ReferenceError::MalformedExitCode) => {
                &&& lines_of(text).len() >= 1
                &&& exit_code_of(lines_of(text).last()) is None
            },
        },
{
}

/// A reference file that is written as `n` lines, each closed by a line
/// feed, expects the first `n - 1` of them as output and the value of line
/// `n` as exit code; if line `n` writes no 32-bit integer the file is
/// refused, whatever else it holds.
pub proof fn lemma_answer_of_written_lines(lines: Seq<Seq<char>>)
    requires
        lines.len() >= 1,
        forall|i: int| 0 <= i < lines.len() ==> is_line(#[trigger] lines[i]),
    ensures
        answer_of_text(join_lines(lines)) == match exit_code_of(lines.last()) {
            Some(code) => Ok::<_, ReferenceError>(
                ReferenceAnswerView { lines: lines.drop_last(), exit_code: code },
            ),
            None => Err(ReferenceError::MalformedExitCode),
        },
        answer_of_text(join_lines(lines)) matches Ok(a) ==> a.lines.len() == lines.len() - 1,
{
    lemma_written_lines_read_back(lines);
}

/// Two sequences of lines are equal exactly when they have the same number
/// of lines and, at every position, lines of the same length that hold the
/// same character at every place.
pub proof fn lemma_same_lines_pointwise(left: Seq<Seq<char>>, right: Seq<Seq<char>>)
    ensures
        left == right <==> {
            &&& left.len() == right.len()
            &&& forall|i: int|
                0 <= i < left.len() ==> {
                    &&& (#[trigger] left[i]).len() == right[i].len()
                    &&& forall|j: int| 0 <= j < left[i].len() ==> left[i][j] == right[i][j]
                }
        },
{
    if left.len() == right.len() && (forall|i: int|
        0 <= i < left.len() ==> {
            &&& (#[trigger] left[i]).len() == right[i].len()
            &&& forall|j: int| 0 <= j < left[i].len() ==> left[i][j] == right[i][j]
        }) {
        assert forall|i: int| 0 <= i < left.len() implies left[i] == right[i] by {
            assert(left[i].len() == right[i].len());
            assert(left[i] =~= right[i]);
        }
        assert(left =~= right);
    }
}

/// One differing character anywhere is enough for a mismatch.
pub proof fn lemma_differing_character_mismatches(
    expected_lines: Seq<Seq<char>>,
    expected_exit_code: i32,
    actual_lines: Seq<Seq<char>>,
    actual_exit_code: Option<i32>,
    line: int,
    column: int,
)
    requires
        0 <= line < expected_lines.len(),
        line < actual_lines.len(),
        0 <= column < expected_lines[line].len(),
        column < actual_lines[line].len(),
        expected_lines[line][column] != actual_lines[line][column],
    ensures
        !agrees(expected_lines, expected_exit_code, actual_lines, actual_exit_code),
{
}

/// Lines in reverse order match only if reversing changes nothing.
pub proof fn lemma_reversed_lines_mismatch(
    expected_lines: Seq<Seq<char>>,
    expected_exit_code: i32,
    actual_exit_code: Option<i32>,
)
    requires
        expected_lines.reverse() != expected_lines,
    ensures
        !agrees(expected_lines, expected_exit_code, expected_lines.reverse(), actual_exit_code),
{
}

/// A different exit code, or none, is enough for a mismatch, whatever was
/// printed.
pub proof fn lemma_wrong_exit_code_mismatches(
    expected_lines: Seq<Seq<char>>,
    expected_exit_code: i32,
    actual_lines: Seq<Seq<char>>,
    actual_exit_code: Option<i32>,
)
    requires
        actual_exit_code != Some(expected_exit_code),
    ensures
        !agrees(expected_lines, expected_exit_code, actual_lines, actual_exit_code),
{
}

} // verus!
