use sysy_judge::reference::{
    get_answer, outputs_match, read_answer, same_lines, ReferenceAnswer, ReferenceError,
};

fn ref_lines(lines: &[&str]) -> Vec<String> {
    lines.iter().map(|line| line.to_string()).collect()
}

#[test]
fn last_line_is_the_exit_code() {
    let answer = get_answer(ref_lines(&["1 2", "3", "0"])).unwrap();
    assert_eq!(answer, ReferenceAnswer { lines: ref_lines(&["1 2", "3"]), exit_code: 0 });
}

#[test]
fn a_reference_of_n_lines_expects_n_minus_one_lines() {
    for n in 1..20usize {
        let mut lines: Vec<String> = (1..n).map(|i| format!("line {}", i)).collect();
        lines.push(format!("{}", n));
        let answer = get_answer(lines.clone()).unwrap();
        assert_eq!(answer.lines.len(), n - 1);
        assert_eq!(answer.lines[..], lines[..n - 1]);
        assert_eq!(answer.exit_code, n as i32);
    }
}

#[test]
fn a_lone_exit_code_expects_no_output() {
    let answer = get_answer(ref_lines(&["-3"])).unwrap();
    assert_eq!(answer, ReferenceAnswer { lines: ref_lines(&[]), exit_code: -3 });
}

#[test]
fn no_line_is_no_answer() {
    assert_eq!(get_answer(ref_lines(&[])), Err(ReferenceError::Empty));
    assert_eq!(read_answer(""), Err(ReferenceError::Empty));
}

#[test]
fn a_malformed_last_line_is_refused() {
    assert_eq!(get_answer(ref_lines(&["1", "zero"])), Err(ReferenceError::MalformedExitCode));
    assert_eq!(get_answer(ref_lines(&["1", ""])), Err(ReferenceError::MalformedExitCode));
    assert_eq!(get_answer(ref_lines(&["1", " 0"])), Err(ReferenceError::MalformedExitCode));
    assert_eq!(get_answer(ref_lines(&["1", "0 "])), Err(ReferenceError::MalformedExitCode));
    assert_eq!(get_answer(ref_lines(&["0", "4294967296"])), Err(ReferenceError::MalformedExitCode));
    assert_eq!(read_answer("out\n\n"), Err(ReferenceError::MalformedExitCode));
    assert_eq!(read_answer("out\n0\r"), Err(ReferenceError::MalformedExitCode));
}

#[test]
fn a_text_is_read_line_by_line() {
    let answer = read_answer("hello\nworld\n7\n").unwrap();
    assert_eq!(answer, ReferenceAnswer { lines: ref_lines(&["hello", "world"]), exit_code: 7 });
    let answer = read_answer("hello\r\nworld\r\n7").unwrap();
    assert_eq!(answer, ReferenceAnswer { lines: ref_lines(&["hello", "world"]), exit_code: 7 });
    let answer = read_answer("255").unwrap();
    assert_eq!(answer, ReferenceAnswer { lines: ref_lines(&[]), exit_code: 255 });
}

#[test]
fn equal_lines_are_the_same() {
    assert!(same_lines(&ref_lines(&[]), &ref_lines(&[])));
    assert!(same_lines(&ref_lines(&["a", "b"]), &ref_lines(&["a", "b"])));
    assert!(same_lines(&ref_lines(&[""]), &ref_lines(&[""])));
}

#[test]
fn a_different_count_is_not_the_same() {
    assert!(!same_lines(&ref_lines(&["a"]), &ref_lines(&["a", "b"])));
    assert!(!same_lines(&ref_lines(&["a", "b"]), &ref_lines(&["a"])));
    assert!(!same_lines(&ref_lines(&[]), &ref_lines(&[""])));
}

#[test]
fn one_differing_character_is_not_the_same() {
    assert!(!same_lines(&ref_lines(&["abc", "def"]), &ref_lines(&["abc", "dEf"])));
    assert!(!same_lines(&ref_lines(&["abc"]), &ref_lines(&["abc "])));
    assert!(!same_lines(&ref_lines(&["abc"]), &ref_lines(&[" abc"])));
    assert!(!same_lines(&ref_lines(&["1.0"]), &ref_lines(&["1.00"])));
}

#[test]
fn reversed_order_is_not_the_same() {
    assert!(!same_lines(&ref_lines(&["a", "b"]), &ref_lines(&["b", "a"])));
    assert!(same_lines(&ref_lines(&["a", "b", "a"]), &ref_lines(&["a", "b", "a"])));
}

#[test]
fn a_match_needs_output_and_exit_code() {
    let expected = ref_lines(&["1", "2"]);
    assert!(outputs_match(&expected, 0, &ref_lines(&["1", "2"]), Some(0)));
    assert!(!outputs_match(&expected, 0, &ref_lines(&["1", "2"]), Some(1)));
    assert!(!outputs_match(&expected, 0, &ref_lines(&["1", "2"]), None));
    assert!(!outputs_match(&expected, 0, &ref_lines(&["1", "3"]), Some(0)));
    assert!(!outputs_match(&expected, 0, &ref_lines(&["2", "1"]), Some(0)));
    assert!(!outputs_match(&expected, 0, &ref_lines(&["1"]), Some(0)));
    assert!(!outputs_match(&expected, 0, &ref_lines(&["1", "2", ""]), Some(0)));
    assert!(outputs_match(&ref_lines(&[]), -1, &ref_lines(&[]), Some(-1)));
}
