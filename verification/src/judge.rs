//! The judge: link, load the reference answer, execute, compare.
//!
//! The judge itself starts no process and reads no file. It is a state
//! machine: it hands out the next thing to do, is told how that went, and
//! ends with a verdict. Linking always comes before executing, and executing
//! before comparing.

use vstd::prelude::*;
use crate::location::{CommandLine, CommandLineView, FilesToRun, FilesToRunView};
use crate::reference::{
    agrees, answer_of_text, outputs_match, read_answer, ReferenceAnswer, ReferenceAnswerView,
    ReferenceError,
};
use crate::text::{lines_of, split_lines};
use crate::verdict::{
    exited_cleanly, spec_exited_cleanly, Elapsed, Verdict, CODE_LINK_ERROR, CODE_SUCCESS,
    CODE_WRONG_ANSWER,
};

verus! {

/// Why judging was given up without a verdict.
#[derive(Clone, Copy, Debug, PartialEq, Eq, Structural)]
pub enum JudgeError {
    /// The reference answer is malformed: a broken fixture, not a fault of
    /// the submission.
    Reference { cause: ReferenceError },
    /// The judge was told of something it had not asked for.
    UnexpectedEvent,
}

/// How far judging has come.
#[derive(Clone, Debug, PartialEq, Eq)]
pub enum JudgeState {
    /// The linker is running.
    Linking,
    /// The submission linked; the reference answer is being read.
    LoadingReference,
    /// The program is running.
    Executing { reference: ReferenceAnswer },
    /// The program has ended; its captured output is being read.
    Collecting { reference: ReferenceAnswer, exit_code: Option<i32>, elapsed: Elapsed },
    /// Judging ended with a verdict.
    Done { verdict: Verdict },
    /// Judging was given up.
    Failed { error: JudgeError },
}

/// The mathematical content of a [`JudgeState`].
pub enum JudgeStateView {
    Linking,
    LoadingReference,
    Executing { reference: ReferenceAnswerView },
    Collecting { reference: ReferenceAnswerView, exit_code: Option<i32>, elapsed: Elapsed },
    Done { verdict: Verdict },
    Failed { error: JudgeError },
}

impl View for JudgeState {
    type V = JudgeStateView;

    open spec fn view(&self) -> JudgeStateView {
        match *self {
            JudgeState::Linking => JudgeStateView::Linking,
            JudgeState::LoadingReference => JudgeStateView::LoadingReference,
            JudgeState::Executing { reference } => JudgeStateView::Executing {
                reference: reference@,
            },
            JudgeState::Collecting { reference, exit_code, elapsed } => JudgeStateView::Collecting {
                reference: reference@,
                exit_code,
                elapsed,
            },
            JudgeState::Done { verdict } => JudgeStateView::Done { verdict },
            JudgeState::Failed { error } => JudgeStateView::Failed { error },
        }
    }
}

/// What the judge is told after it asked for something.
#[derive(Clone, Debug, PartialEq, Eq)]
pub enum JudgeEvent {
    /// The linker ended with this exit code, or without one if it was
    /// killed.
    LinkExited { exit_code: Option<i32> },
    /// The reference answer file holds this text.
    ReferenceRead { text: String },
    /// The program ended with this exit code, or without one if it was
    /// killed, after running for this long.
    ProgramExited { exit_code: Option<i32>, elapsed: Elapsed },
    /// The file that captured the program's standard output holds this text.
    OutputRead { text: String },
}

/// The mathematical content of a [`JudgeEvent`].
pub enum JudgeEventView {
    LinkExited { exit_code: Option<i32> },
    ReferenceRead { text: Seq<char> },
    ProgramExited { exit_code: Option<i32>, elapsed: Elapsed },
    OutputRead { text: Seq<char> },
}

impl View for JudgeEvent {
    type V = JudgeEventView;

    open spec fn view(&self) -> JudgeEventView {
        match *self {
            JudgeEvent::LinkExited { exit_code } => JudgeEventView::LinkExited { exit_code },
            JudgeEvent::ReferenceRead { text } => JudgeEventView::ReferenceRead { text: text@ },
            JudgeEvent::ProgramExited { exit_code, elapsed } => JudgeEventView::ProgramExited {
                exit_code,
                elapsed,
            },
            JudgeEvent::OutputRead { text } => JudgeEventView::OutputRead { text: text@ },
        }
    }
}

/// What the judge asks for next.
#[derive(Clone, Debug, PartialEq, Eq)]
pub enum JudgeAction {
    /// Run the linker and report how it exited.
    Link { command: CommandLine },
    /// Read the reference answer file and report its text.
    ReadReference { path: String },
    /// Run the linked program, its input taken from `stdin` if that file
    /// exists and from nowhere otherwise, its output captured in `stdout`
    /// and `stderr`; time it from just before its start to just after its
    /// end, and report exit code and time.
    Execute { program: String, stdin: String, stdout: String, stderr: String },
    /// Read the captured standard output and report its text.
    ReadOutput { path: String },
    /// Judging is over: report this verdict.
    Report { verdict: Verdict },
    /// Judging is given up: fail the request.
    Fail { error: JudgeError },
}

/// The mathematical content of a [`JudgeAction`].
pub enum JudgeActionView {
    Link { command: CommandLineView },
    ReadReference { path: Seq<char> },
    Execute { program: Seq<char>, stdin: Seq<char>, stdout: Seq<char>, stderr: Seq<char> },
    ReadOutput { path: Seq<char> },
    Report { verdict: Verdict },
    Fail { error: JudgeError },
}

impl View for JudgeAction {
    type V = JudgeActionView;

    open spec fn view(&self) -> JudgeActionView {
        match *self {
            JudgeAction::Link { command } => JudgeActionView::Link { command: command@ },
            JudgeAction::ReadReference { path } => JudgeActionView::ReadReference { path: path@ },
            JudgeAction::Execute { program, stdin, stdout, stderr } => JudgeActionView::Execute {
                program: program@,
                stdin: stdin@,
                stdout: stdout@,
                stderr: stderr@,
            },
            JudgeAction::ReadOutput { path } => JudgeActionView::ReadOutput { path: path@ },
            JudgeAction::Report { verdict } => JudgeActionView::Report { verdict },
            JudgeAction::Fail { error } => JudgeActionView::Fail { error },
        }
    }
}

/// The verdict on a finished run: success with the time the program ran if
/// exit code and output agree with the reference, a wrong answer otherwise.
pub open spec fn verdict_of(
    reference: ReferenceAnswerView,
    exit_code: Option<i32>,
    elapsed: Elapsed,
    output: Seq<Seq<char>>,
) -> Verdict {
    if agrees(reference.lines, reference.exit_code, output, exit_code) {
        Verdict::Success { elapsed }
    } else {
        Verdict::WrongAnswer
    }
}

/// The state in which the judge gives up, and the action that says so.
pub open spec fn give_up(error: JudgeError) -> (JudgeStateView, JudgeActionView) {
    (JudgeStateView::Failed { error }, JudgeActionView::Fail { error })
}

/// The state in which the judge has a verdict, and the action that says so.
pub open spec fn conclude(verdict: Verdict) -> (JudgeStateView, JudgeActionView) {
    (JudgeStateView::Done { verdict }, JudgeActionView::Report { verdict })
}

/// One step of the judge: the state it moves to and what it asks for next.
pub open spec fn judge_step(
    files: FilesToRunView,
    state: JudgeStateView,
    event: JudgeEventView,
) -> (JudgeStateView, JudgeActionView) {
    match state {
        JudgeStateView::Done { verdict } => conclude(verdict),
        JudgeStateView::Failed { error } => give_up(error),
        JudgeStateView::Linking => match event {
            JudgeEventView::LinkExited { exit_code } => if spec_exited_cleanly(exit_code) {
                (
                    JudgeStateView::LoadingReference,
                    JudgeActionView::ReadReference { path: files.answer() },
                )
            } else {
                conclude(Verdict::LinkError)
            },
            _ => give_up(JudgeError::UnexpectedEvent),
        },
        JudgeStateView::LoadingReference => match event {
            JudgeEventView::ReferenceRead { text } => match answer_of_text(text) {
                Ok(reference) => (
                    JudgeStateView::Executing { reference },
                    JudgeActionView::Execute {
                        program: files.executable(),
                        stdin: files.input(),
                        stdout: files.output(),
                        stderr: files.outerr(),
                    },
                ),
                Err(cause) => give_up(JudgeError::Reference { cause }),
            },
            _ => give_up(JudgeError::UnexpectedEvent),
        },
        JudgeStateView::Executing { reference } => match event {
            JudgeEventView::ProgramExited { exit_code, elapsed } => (
                JudgeStateView::Collecting { reference, exit_code, elapsed },
                JudgeActionView::ReadOutput { path: files.output() },
            ),
            _ => give_up(JudgeError::UnexpectedEvent),
        },
        JudgeStateView::Collecting { reference, exit_code, elapsed } => match event {
            JudgeEventView::OutputRead { text } => conclude(
                verdict_of(reference, exit_code, elapsed, lines_of(text)),
            ),
            _ => give_up(JudgeError::UnexpectedEvent),
        },
    }
}

/// The state the judge is in after a sequence of events.
pub open spec fn judge_run(
    files: FilesToRunView,
    state: JudgeStateView,
    events: Seq<JudgeEventView>,
) -> JudgeStateView
    decreases events.len(),
{
    if events.len() == 0 {
        state
    } else {
        judge_run(files, judge_step(files, state, events[0]).0, events.drop_first())
    }
}

/// The verdict on a finished run.
pub fn decide(
    reference: &ReferenceAnswer,
    exit_code: Option<i32>,
    elapsed: Elapsed,
    output: &Vec<String>,
) -> (verdict: Verdict)
    ensures
        verdict == verdict_of(reference@, exit_code, elapsed, output.deep_view()),
{
    if outputs_match(&reference.lines, reference.exit_code, output, exit_code) {
        Verdict::Success { elapsed }
    } else {
        Verdict::WrongAnswer
    }
}

/// The judge of one submission.
#[derive(Clone, Debug, PartialEq, Eq)]
pub struct Judge {
    pub files: FilesToRun,
    pub state: JudgeState,
}

impl Judge {
    /// Starts judging: the first thing to do is to link.
    pub fn start(files: FilesToRun) -> (begun: (Judge, JudgeAction))
        ensures
            begun.0.files@ == files@,
            begun.0.state@ == JudgeStateView::Linking,
            begun.1@ == (JudgeActionView::Link { command: files@.link_command() }),
    {
        let command = files.link_command();
        (Judge { files, state: JudgeState::Linking }, JudgeAction::Link { command })
    }

    /// The verdict, once judging has ended with one.
    pub fn verdict(&self) -> (verdict: Option<Verdict>)
        ensures
            verdict == match self.state@ {
                JudgeStateView::Done { verdict } => Some(verdict),
                _ => None,
            },
    {
        match &self.state {
            JudgeState::Done { verdict } => Some(*verdict),
            _ => None,
        }
    }

    /// Whether judging is over, with a verdict or without.
    pub fn is_finished(&self) -> (finished: bool)
        ensures
            finished == (self.state@ is Done || self.state@ is Failed),
    {
        match &self.state {
            JudgeState::Done { .. } => true,
            JudgeState::Failed { .. } => true,
            _ => false,
        }
    }

    /// Takes in what happened and says what to do next.
    pub fn step(self, event: JudgeEvent) -> (next: (Judge, JudgeAction))
        ensures
            next.0.files@ == self.files@,
            (next.0.state@, next.1@) == judge_step(self.files@, self.state@, event@),
    {
        let Judge { files, state } = self;
        match state {
            JudgeState::Done { verdict } => (
                Judge { files, state: JudgeState::Done { verdict } },
                JudgeAction::Report { verdict },
            ),
            JudgeState::Failed { error } => (
                Judge { files, state: JudgeState::Failed { error } },
                JudgeAction::Fail { error },
            ),
            JudgeState::Linking => match event {
                JudgeEvent::LinkExited { exit_code } => {
                    if exited_cleanly(exit_code) {
                        let path = files.answer();
                        (
                            Judge { files, state: JudgeState::LoadingReference },
                            JudgeAction::ReadReference { path },
                        )
                    } else {
                        Self::concluded(files, Verdict::LinkError)
                    }
                },
                _ => Self::given_up(files, JudgeError::UnexpectedEvent),
            },
            JudgeState::LoadingReference => match event {
                JudgeEvent::ReferenceRead { text } => match read_answer(text.as_str()) {
                    Ok(reference) => {
                        let action = JudgeAction::Execute {
                            program: files.executable(),
                            stdin: files.input(),
                            stdout: files.output(),
                            stderr: files.outerr(),
                        };
                        (Judge { files, state: JudgeState::Executing { reference } }, action)
                    },
                    Err(cause) => Self::given_up(files, JudgeError::Reference { cause }),
                },
                _ => Self::given_up(files, JudgeError::UnexpectedEvent),
            },
            JudgeState::Executing { reference } => match event {
                JudgeEvent::ProgramExited { exit_code, elapsed } => {
                    let path = files.output();
                    (
                        Judge {
                            files,
                            state: JudgeState::Collecting { reference, exit_code, elapsed },
                        },
                        JudgeAction::ReadOutput { path },
                    )
                },
                _ => Self::given_up(files, JudgeError::UnexpectedEvent),
            },
            JudgeState::Collecting { reference, exit_code, elapsed } => match event {
                JudgeEvent::OutputRead { text } => {
                    let output = split_lines(text.as_str());
                    let verdict = decide(&reference, exit_code, elapsed, &output);
                    Self::concluded(files, verdict)
                },
                _ => Self::given_up(files, JudgeError::UnexpectedEvent),
            },
        }
    }

    fn concluded(files: FilesToRun, verdict: Verdict) -> (next: (Judge, JudgeAction))
        ensures
            next.0.files == files,
            (next.0.state@, next.1@) == conclude(verdict),
    {
        (Judge { files, state: JudgeState::Done { verdict } }, JudgeAction::Report { verdict })
    }

    fn given_up(files: FilesToRun, error: JudgeError) -> (next: (Judge, JudgeAction))
        ensures
            next.0.files == files,
            (next.0.state@, next.1@) == give_up(error),
    {
        (Judge { files, state: JudgeState::Failed { error } }, JudgeAction::Fail { error })
    }
}

/// The four events of a complete judging, in the order in which the judge
/// asks for them.
pub open spec fn full_course(
    link_exit: Option<i32>,
    reference_text: Seq<char>,
    exit_code: Option<i32>,
    elapsed: Elapsed,
    output_text: Seq<char>,
) -> Seq<JudgeEventView> {
    seq![
        JudgeEventView::LinkExited { exit_code: link_exit },
        JudgeEventView::ReferenceRead { text: reference_text },
        JudgeEventView::ProgramExited { exit_code, elapsed },
        JudgeEventView::OutputRead { text: output_text },
    ]
}

/// Where a complete judging ends.
pub open spec fn outcome_of(
    link_exit: Option<i32>,
    reference_text: Seq<char>,
    exit_code: Option<i32>,
    elapsed: Elapsed,
    output_text: Seq<char>,
) -> JudgeStateView {
    if !spec_exited_cleanly(link_exit) {
        JudgeStateView::Done { verdict: Verdict::LinkError }
    } else {
        match answer_of_text(reference_text) {
            Err(cause) => JudgeStateView::Failed { error: JudgeError::Reference { cause } },
            Ok(reference) => JudgeStateView::Done {
                verdict: verdict_of(reference, exit_code, elapsed, lines_of(output_text)),
            },
        }
    }
}

/// Once judging is over, nothing that is reported changes its end.
pub proof fn lemma_finished_is_final(
    files: FilesToRunView,
    state: JudgeStateView,
    events: Seq<JudgeEventView>,
)
    requires
        state is Done || state is Failed,
    ensures
        judge_run(files, state, events) == state,
    decreases events.len(),
{
    if events.len() > 0 {
        lemma_finished_is_final(files, state, events.drop_first());
    }
}

/// Running over a first event and the rest is stepping once and running
/// over the rest.
pub proof fn lemma_run_unfold(
    files: FilesToRunView,
    state: JudgeStateView,
    first: JudgeEventView,
    rest: Seq<JudgeEventView>,
)
    ensures
        judge_run(files, state, seq![first] + rest) == judge_run(
            files,
            judge_step(files, state, first).0,
            rest,
        ),
{
    let events = seq![first] + rest;
    assert(events[0] == first);
    assert(events.drop_first() =~= rest);
}

/// When the linker fails the verdict is settled as a link error that
/// carries no time, whatever is reported afterwards.
pub proof fn lemma_link_failure_is_link_error(
    files: FilesToRunView,
    link_exit: Option<i32>,
    later: Seq<JudgeEventView>,
)
    requires
        link_exit != Some(0i32),
    ensures
        judge_run(
            files,
            JudgeStateView::Linking,
            seq![JudgeEventView::LinkExited { exit_code: link_exit }] + later,
        ) == (JudgeStateView::Done { verdict: Verdict::LinkError }),
        Verdict::LinkError.spec_result().code == CODE_LINK_ERROR,
        Verdict::LinkError.spec_result().time is None,
{
    let first = JudgeEventView::LinkExited { exit_code: link_exit };
    lemma_run_unfold(files, JudgeStateView::Linking, first, later);
    lemma_finished_is_final(files, JudgeStateView::Done { verdict: Verdict::LinkError }, later);
}

/// A complete judging ends as `outcome_of` says.
pub proof fn lemma_full_course(
    files: FilesToRunView,
    link_exit: Option<i32>,
    reference_text: Seq<char>,
    exit_code: Option<i32>,
    elapsed: Elapsed,
    output_text: Seq<char>,
)
    ensures
        judge_run(
            files,
            JudgeStateView::Linking,
            full_course(link_exit, reference_text, exit_code, elapsed, output_text),
        ) == outcome_of(link_exit, reference_text, exit_code, elapsed, output_text),
{
    let e0 = JudgeEventView::LinkExited { exit_code: link_exit };
    let e1 = JudgeEventView::ReferenceRead { text: reference_text };
    let e2 = JudgeEventView::ProgramExited { exit_code, elapsed };
    let e3 = JudgeEventView::OutputRead { text: output_text };
    let all = full_course(link_exit, reference_text, exit_code, elapsed, output_text);
    let none = Seq::<JudgeEventView>::empty();
    assert(all =~= seq![e0] + seq![e1, e2, e3]);
    assert(seq![e1, e2, e3] =~= seq![e1] + seq![e2, e3]);
    assert(seq![e2, e3] =~= seq![e2] + seq![e3]);
    assert(seq![e3] =~= seq![e3] + none);
    let s1 = judge_step(files, JudgeStateView::Linking, e0).0;
    lemma_run_unfold(files, JudgeStateView::Linking, e0, seq![e1, e2, e3]);
    let s2 = judge_step(files, s1, e1).0;
    lemma_run_unfold(files, s1, e1, seq![e2, e3]);
    let s3 = judge_step(files, s2, e2).0;
    lemma_run_unfold(files, s2, e2, seq![e3]);
    let s4 = judge_step(files, s3, e3).0;
    lemma_run_unfold(files, s3, e3, none);
    assert(judge_run(files, s4, none) == s4);
    if !spec_exited_cleanly(link_exit) {
        lemma_finished_is_final(files, s1, seq![e1, e2, e3]);
    } else if answer_of_text(reference_text) is Err {
        lemma_finished_is_final(files, s2, seq![e2, e3]);
    }
}

/// A program that prints what the reference expects and exits as the
/// reference expects is a success, code 0, and the time reported is the
/// time that the program ran: nothing of the linking enters it.
pub proof fn lemma_matching_run_succeeds(
    files: FilesToRunView,
    reference_text: Seq<char>,
    exit_code: Option<i32>,
    elapsed: Elapsed,
    output_text: Seq<char>,
)
    requires
        answer_of_text(reference_text) matches Ok(reference) && exit_code == Some(
            reference.exit_code,
        ) && lines_of(output_text) == reference.lines,
    ensures
        judge_run(
            files,
            JudgeStateView::Linking,
            full_course(Some(0i32), reference_text, exit_code, elapsed, output_text),
        ) == (JudgeStateView::Done { verdict: Verdict::Success { elapsed } }),
        (Verdict::Success { elapsed }).spec_result().code == CODE_SUCCESS,
        (Verdict::Success { elapsed }).spec_result().time == Some(elapsed),
        elapsed.total_nanos() >= 0,
{
    lemma_full_course(files, Some(0i32), reference_text, exit_code, elapsed, output_text);
}

/// A program that prints what the reference expects but exits otherwise, or
/// is killed, has given a wrong answer, code 2, without a time.
pub proof fn lemma_wrong_exit_code_is_wrong_answer(
    files: FilesToRunView,
    reference_text: Seq<char>,
    exit_code: Option<i32>,
    elapsed: Elapsed,
    output_text: Seq<char>,
)
    requires
        answer_of_text(reference_text) matches Ok(reference) && exit_code != Some(
            reference.exit_code,
        ),
    ensures
        judge_run(
            files,
            JudgeStateView::Linking,
            full_course(Some(0i32), reference_text, exit_code, elapsed, output_text),
        ) == (JudgeStateView::Done { verdict: Verdict::WrongAnswer }),
        Verdict::WrongAnswer.spec_result().code == CODE_WRONG_ANSWER,
        Verdict::WrongAnswer.spec_result().time is None,
{
    lemma_full_course(files, Some(0i32), reference_text, exit_code, elapsed, output_text);
}

/// A program whose output differs from the reference has given a wrong
/// answer, however it exited.
pub proof fn lemma_wrong_output_is_wrong_answer(
    files: FilesToRunView,
    reference_text: Seq<char>,
    exit_code: Option<i32>,
    elapsed: Elapsed,
    output_text: Seq<char>,
)
    requires
        answer_of_text(reference_text) matches Ok(reference) && lines_of(output_text)
            != reference.lines,
    ensures
        judge_run(
            files,
            JudgeStateView::Linking,
            full_course(Some(0i32), reference_text, exit_code, elapsed, output_text),
        ) == (JudgeStateView::Done { verdict: Verdict::WrongAnswer }),
{
    lemma_full_course(files, Some(0i32), reference_text, exit_code, elapsed, output_text);
}

} // verus!
