use sysy_judge::verdict::{
    exited_cleanly, CompileVerdict, Elapsed, RunResult, Verdict, CODE_COMPILE_ERROR, CODE_LINK_ERROR,
    CODE_SUCCESS, CODE_WRONG_ANSWER,
};

#[test]
fn codes_are_as_published() {
    assert_eq!(CODE_SUCCESS, 0);
    assert_eq!(CODE_LINK_ERROR, 1);
    assert_eq!(CODE_WRONG_ANSWER, 2);
    assert_eq!(CODE_COMPILE_ERROR, 3);
}

#[test]
fn each_verdict_has_its_code() {
    let elapsed = Elapsed { secs: 1, subsec_nanos: 500_000_000 };
    assert_eq!(Verdict::Success { elapsed }.code(), 0);
    assert_eq!(Verdict::LinkError.code(), 1);
    assert_eq!(Verdict::WrongAnswer.code(), 2);
    assert_eq!(CompileVerdict::Success.code(), 0);
    assert_eq!(CompileVerdict::ToolchainError.code(), 3);
}

#[test]
fn only_success_has_a_time() {
    let elapsed = Elapsed { secs: 0, subsec_nanos: 1_234_567 };
    assert_eq!(Verdict::Success { elapsed }.time(), Some(elapsed));
    assert_eq!(Verdict::LinkError.time(), None);
    assert_eq!(Verdict::WrongAnswer.time(), None);
    assert!(Verdict::Success { elapsed }.is_success());
    assert!(!Verdict::LinkError.is_success());
    assert!(!Verdict::WrongAnswer.is_success());
}

#[test]
fn payloads_are_as_published() {
    let elapsed = Elapsed { secs: 2, subsec_nanos: 0 };
    assert_eq!(
        Verdict::Success { elapsed }.to_result(),
        RunResult { code: 0, time: Some(elapsed) }
    );
    assert_eq!(Verdict::LinkError.to_result(), RunResult { code: 1, time: None });
    assert_eq!(Verdict::WrongAnswer.to_result(), RunResult { code: 2, time: None });
    assert_eq!(CompileVerdict::Success.to_result(), RunResult { code: 0, time: None });
    assert_eq!(CompileVerdict::ToolchainError.to_result(), RunResult { code: 3, time: None });
}

#[test]
fn a_compiler_is_judged_by_its_exit() {
    assert_eq!(CompileVerdict::of_exit(Some(0)), CompileVerdict::Success);
    assert_eq!(CompileVerdict::of_exit(Some(1)), CompileVerdict::ToolchainError);
    assert_eq!(CompileVerdict::of_exit(Some(-1)), CompileVerdict::ToolchainError);
    assert_eq!(CompileVerdict::of_exit(None), CompileVerdict::ToolchainError);
    assert!(CompileVerdict::of_exit(Some(0)).is_success());
    assert!(!CompileVerdict::of_exit(Some(4)).is_success());
}

#[test]
fn only_exit_code_zero_is_a_clean_exit() {
    assert!(exited_cleanly(Some(0)));
    assert!(!exited_cleanly(Some(1)));
    assert!(!exited_cleanly(Some(-1)));
    assert!(!exited_cleanly(None));
}

#[test]
fn a_measurement_keeps_its_parts() {
    assert_eq!(Elapsed::new(3, 999_999_999), Some(Elapsed { secs: 3, subsec_nanos: 999_999_999 }));
    assert_eq!(Elapsed::new(0, 0), Some(Elapsed { secs: 0, subsec_nanos: 0 }));
}

#[test]
fn a_second_of_nanoseconds_is_refused() {
    assert_eq!(Elapsed::new(0, 1_000_000_000), None);
    assert_eq!(Elapsed::new(5, u32::MAX), None);
}

#[test]
fn nanoseconds_add_up() {
    assert_eq!(Elapsed { secs: 0, subsec_nanos: 0 }.as_nanos(), 0);
    assert_eq!(Elapsed { secs: 1, subsec_nanos: 500_000_000 }.as_nanos(), 1_500_000_000);
    assert_eq!(
        Elapsed { secs: u64::MAX, subsec_nanos: 999_999_999 }.as_nanos(),
        18_446_744_073_709_551_615_999_999_999u128
    );
    let std_duration = std::time::Duration::new(12, 345_678_901);
    let elapsed = Elapsed::new(std_duration.as_secs(), std_duration.subsec_nanos()).unwrap();
    assert_eq!(elapsed.as_nanos(), std_duration.as_nanos());
}
