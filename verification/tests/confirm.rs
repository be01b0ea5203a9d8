use pxtally::confirm::{classify_answer, read_answer, write_decision, Answer, WriteDecision};

#[test]
fn read_answer_checking_value() {
    assert_eq!(read_answer("yes\n"), Answer::Yes);
    assert_eq!(read_answer("  Y \r\n"), Answer::Yes);
    assert_eq!(read_answer("YES"), Answer::Yes);
    assert_eq!(read_answer("no\n"), Answer::No);
    assert_eq!(read_answer("N"), Answer::No);
    assert_eq!(read_answer("\tNo\t"), Answer::No);
    assert_eq!(read_answer("maybe\n"), Answer::Retry);
    assert_eq!(read_answer("\n"), Answer::Retry);
    assert_eq!(read_answer("y es"), Answer::Retry);
}

#[test]
fn classify_answer_checking_value() {
    assert_eq!(classify_answer("yes"), Answer::Yes);
    assert_eq!(classify_answer("y"), Answer::Yes);
    assert_eq!(classify_answer("no"), Answer::No);
    assert_eq!(classify_answer("n"), Answer::No);
    assert_eq!(classify_answer("Yes"), Answer::Retry);
    assert_eq!(classify_answer(" y"), Answer::Retry);
    assert_eq!(classify_answer(""), Answer::Retry);
}

#[test]
fn write_decision_checking_value() {
    assert_eq!(write_decision(true, false), WriteDecision::Confirm);
    assert_eq!(write_decision(true, true), WriteDecision::Write);
    assert_eq!(write_decision(false, false), WriteDecision::Write);
    assert_eq!(write_decision(false, true), WriteDecision::Write);
}
