use sysy_judge::judge::{decide, Judge, JudgeAction, JudgeError, JudgeEvent, JudgeState};
use sysy_judge::location::FilesToRun;
use sysy_judge::reference::{ReferenceAnswer, ReferenceError};
use sysy_judge::verdict::{Elapsed, RunResult, Verdict};

fn job() -> FilesToRun {
    FilesToRun {
        folder: "f".to_string(),
        name: "prog".to_string(),
        name_without_suffix: "case1".to_string(),
    }
}

fn took(secs: u64, subsec_nanos: u32) -> Elapsed {
    Elapsed { secs, subsec_nanos }
}

fn run_course(
    link_exit: Option<i32>,
    reference: &str,
    exit_code: Option<i32>,
    elapsed: Elapsed,
    output: &str,
) -> (Judge, Vec<JudgeAction>) {
    let (mut judge, first) = Judge::start(job());
    let mut actions = vec![first];
    let events = vec![
        JudgeEvent::LinkExited { exit_code: link_exit },
        JudgeEvent::ReferenceRead { text: reference.to_string() },
        JudgeEvent::ProgramExited { exit_code, elapsed },
        JudgeEvent::OutputRead { text: output.to_string() },
    ];
    for event in events {
        let (next, action) = judge.step(event);
        judge = next;
        actions.push(action);
    }
    (judge, actions)
}

#[test]
fn judging_starts_with_linking() {
    let (judge, action) = Judge::start(job());
    assert_eq!(judge.state, JudgeState::Linking);
    assert_eq!(judge.files, job());
    assert_eq!(action, JudgeAction::Link { command: job().link_command() });
    assert_eq!(judge.verdict(), None);
    assert!(!judge.is_finished());
}

#[test]
fn a_failed_link_is_a_link_error_without_time() {
    let (judge, _) = Judge::start(job());
    let (judge, action) = judge.step(JudgeEvent::LinkExited { exit_code: Some(1) });
    assert_eq!(action, JudgeAction::Report { verdict: Verdict::LinkError });
    assert_eq!(judge.verdict(), Some(Verdict::LinkError));
    assert!(judge.is_finished());
    assert_eq!(Verdict::LinkError.to_result(), RunResult { code: 1, time: None });
}

#[test]
fn a_failed_link_stays_a_link_error_whatever_follows() {
    let (judge, actions) = run_course(Some(1), "hello\n0\n", Some(0), took(0, 5), "hello\n");
    assert_eq!(judge.verdict(), Some(Verdict::LinkError));
    for action in &actions[1..] {
        assert_eq!(*action, JudgeAction::Report { verdict: Verdict::LinkError });
    }
}

#[test]
fn a_killed_linker_is_a_link_error() {
    for link_exit in [None, Some(-1), Some(2), Some(127), Some(i32::MIN)] {
        let (judge, _) = run_course(link_exit, "hello\n0\n", Some(0), took(0, 5), "hello\n");
        assert_eq!(judge.verdict(), Some(Verdict::LinkError));
    }
}

#[test]
fn a_matching_run_succeeds_with_the_time_of_the_run() {
    let elapsed = took(1, 250_000_000);
    let (judge, actions) = run_course(Some(0), "3\n5\n0\n", Some(0), elapsed, "3\n5\n");
    assert_eq!(judge.verdict(), Some(Verdict::Success { elapsed }));
    assert_eq!(
        judge.verdict().unwrap().to_result(),
        RunResult { code: 0, time: Some(elapsed) }
    );
    assert_eq!(
        actions,
        vec![
            JudgeAction::Link { command: job().link_command() },
            JudgeAction::ReadReference { path: "uploaded_files/f/case1.out".to_string() },
            JudgeAction::Execute {
                program: "uploaded_files/f/prog.exec".to_string(),
                stdin: "uploaded_files/f/case1.in".to_string(),
                stdout: "uploaded_files/f/prog.stdout".to_string(),
                stderr: "uploaded_files/f/prog.stderr".to_string(),
            },
            JudgeAction::ReadOutput { path: "uploaded_files/f/prog.stdout".to_string() },
            JudgeAction::Report { verdict: Verdict::Success { elapsed } },
        ]
    );
}

#[test]
fn the_time_of_a_success_is_the_time_reported_for_the_run() {
    for elapsed in [took(0, 0), took(0, 1), took(59, 999_999_999), took(u64::MAX, 0)] {
        let (judge, _) = run_course(Some(0), "7", Some(7), elapsed, "");
        assert_eq!(judge.verdict().unwrap().time(), Some(elapsed));
    }
}

#[test]
fn a_wrong_exit_code_alone_is_a_wrong_answer() {
    let (judge, actions) = run_course(Some(0), "ok\n0\n", Some(1), took(0, 10), "ok\n");
    assert_eq!(judge.verdict(), Some(Verdict::WrongAnswer));
    assert_eq!(judge.verdict().unwrap().to_result(), RunResult { code: 2, time: None });
    assert_eq!(actions[4], JudgeAction::Report { verdict: Verdict::WrongAnswer });
}

#[test]
fn a_killed_program_is_a_wrong_answer() {
    let (judge, _) = run_course(Some(0), "ok\n0\n", None, took(0, 10), "ok\n");
    assert_eq!(judge.verdict(), Some(Verdict::WrongAnswer));
}

#[test]
fn a_wrong_output_is_a_wrong_answer() {
    let (judge, _) = run_course(Some(0), "ok\n0\n", Some(0), took(0, 10), "ko\n");
    assert_eq!(judge.verdict(), Some(Verdict::WrongAnswer));
    let (judge, _) = run_course(Some(0), "a\nb\n0\n", Some(0), took(0, 10), "b\na\n");
    assert_eq!(judge.verdict(), Some(Verdict::WrongAnswer));
    let (judge, _) = run_course(Some(0), "a\n0\n", Some(0), took(0, 10), "a \n");
    assert_eq!(judge.verdict(), Some(Verdict::WrongAnswer));
    let (judge, _) = run_course(Some(0), "a\n0\n", Some(0), took(0, 10), "a\n\n");
    assert_eq!(judge.verdict(), Some(Verdict::WrongAnswer));
}

#[test]
fn a_missing_final_line_feed_makes_no_difference() {
    let (judge, _) = run_course(Some(0), "a\nb\n0", Some(0), took(0, 10), "a\nb");
    assert_eq!(judge.verdict(), Some(Verdict::Success { elapsed: took(0, 10) }));
}

#[test]
fn a_malformed_reference_ends_judging_without_verdict() {
    let (judge, actions) = run_course(Some(0), "ok\nnone\n", Some(0), took(0, 10), "ok\n");
    let error = JudgeError::Reference { cause: ReferenceError::MalformedExitCode };
    assert_eq!(judge.state, JudgeState::Failed { error });
    assert_eq!(judge.verdict(), None);
    assert!(judge.is_finished());
    assert_eq!(actions[2], JudgeAction::Fail { error });
    assert_eq!(actions[4], JudgeAction::Fail { error });
}

#[test]
fn an_empty_reference_ends_judging_without_verdict() {
    let (judge, _) = run_course(Some(0), "", Some(0), took(0, 10), "");
    let error = JudgeError::Reference { cause: ReferenceError::Empty };
    assert_eq!(judge.state, JudgeState::Failed { error });
}

#[test]
fn an_event_out_of_turn_ends_judging() {
    let (judge, _) = Judge::start(job());
    let (judge, action) = judge.step(JudgeEvent::OutputRead { text: "x".to_string() });
    assert_eq!(action, JudgeAction::Fail { error: JudgeError::UnexpectedEvent });
    assert_eq!(judge.state, JudgeState::Failed { error: JudgeError::UnexpectedEvent });

    let (judge, _) = Judge::start(job());
    let (judge, _) = judge.step(JudgeEvent::LinkExited { exit_code: Some(0) });
    let (judge, action) = judge.step(JudgeEvent::LinkExited { exit_code: Some(0) });
    assert_eq!(action, JudgeAction::Fail { error: JudgeError::UnexpectedEvent });
    assert_eq!(judge.verdict(), None);
}

#[test]
fn the_states_follow_one_another() {
    let (judge, _) = Judge::start(job());
    let (judge, _) = judge.step(JudgeEvent::LinkExited { exit_code: Some(0) });
    assert_eq!(judge.state, JudgeState::LoadingReference);
    let (judge, _) = judge.step(JudgeEvent::ReferenceRead { text: "x\n4\n".to_string() });
    let reference = ReferenceAnswer { lines: vec!["x".to_string()], exit_code: 4 };
    assert_eq!(judge.state, JudgeState::Executing { reference: reference.clone() });
    let (judge, _) =
        judge.step(JudgeEvent::ProgramExited { exit_code: Some(4), elapsed: took(2, 0) });
    assert_eq!(
        judge.state,
        JudgeState::Collecting { reference, exit_code: Some(4), elapsed: took(2, 0) }
    );
    assert!(!judge.is_finished());
    let (judge, _) = judge.step(JudgeEvent::OutputRead { text: "x\n".to_string() });
    assert_eq!(judge.state, JudgeState::Done { verdict: Verdict::Success { elapsed: took(2, 0) } });
}

#[test]
fn deciding_compares_output_and_exit_code() {
    let reference = ReferenceAnswer { lines: vec!["1".to_string()], exit_code: 3 };
    let elapsed = took(0, 42);
    assert_eq!(
        decide(&reference, Some(3), elapsed, &vec!["1".to_string()]),
        Verdict::Success { elapsed }
    );
    assert_eq!(decide(&reference, Some(0), elapsed, &vec!["1".to_string()]), Verdict::WrongAnswer);
    assert_eq!(decide(&reference, Some(3), elapsed, &vec!["2".to_string()]), Verdict::WrongAnswer);
    assert_eq!(decide(&reference, None, elapsed, &vec!["1".to_string()]), Verdict::WrongAnswer);
}
