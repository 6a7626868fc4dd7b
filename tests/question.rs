use orchestra::question::{
    auto_answer, input_answer_line, input_validate_number, input_validate_time, input_validate_yes_no,
    InputAnswerKind, InputQuestionOptions, QuestionError,
};

#[test]
fn auto_answer_follows_required_values() {
    assert_eq!(auto_answer(InputAnswerKind::YesNo), "yes");
    assert_eq!(auto_answer(InputAnswerKind::Number), "1");
    assert_eq!(auto_answer(InputAnswerKind::Text), "나비");
}

#[test]
fn yes_no_validation_works() {
    assert_eq!(input_validate_yes_no("y"), Some("yes".to_string()));
    assert_eq!(input_validate_yes_no("N"), Some("no".to_string()));
    assert_eq!(input_validate_yes_no("ok"), None);
}

#[test]
fn number_validation_works() {
    assert!(input_validate_number("12"));
    assert!(input_validate_number("-9"));
    assert!(!input_validate_number("1.2"));
    assert!(!input_validate_number("abc"));
}

#[test]
fn time_range_validation_works() {
    assert!(input_validate_time(0).is_ok());
    assert!(input_validate_time(1).is_ok());
    assert!(input_validate_time(60).is_ok());
    assert!(input_validate_time(61).is_err());
}

#[test]
fn options_default_is_false_and_zero() {
    let opts = InputQuestionOptions::default();
    assert!(!opts.auto);
    assert_eq!(opts.time, 0);
}

#[test]
fn delay_error_is_the_range_error() {
    assert_eq!(input_validate_time(61), Err(QuestionError::DelayOutOfRange));
}

#[test]
fn yes_no_accepts_mixed_case_words() {
    assert_eq!(input_validate_yes_no("YeS"), Some("yes".to_string()));
    assert_eq!(input_validate_yes_no("nO"), Some("no".to_string()));
    assert_eq!(input_validate_yes_no(""), None);
    assert_eq!(input_validate_yes_no("yess"), None);
}

#[test]
fn number_validation_follows_i64_range() {
    assert!(input_validate_number("9223372036854775807"));
    assert!(!input_validate_number("9223372036854775808"));
    assert!(input_validate_number("-9223372036854775808"));
    assert!(!input_validate_number("-9223372036854775809"));
    assert!(input_validate_number("+7"));
    assert!(!input_validate_number("-"));
    assert!(!input_validate_number(""));
    assert!(!input_validate_number(" 1"));
}

#[test]
fn typed_lines_become_answers() {
    assert_eq!(input_answer_line(InputAnswerKind::YesNo, "  Y \n"), Some("yes".to_string()));
    assert_eq!(input_answer_line(InputAnswerKind::Number, " 42 "), Some("42".to_string()));
    assert_eq!(input_answer_line(InputAnswerKind::Number, "4x"), None);
    assert_eq!(input_answer_line(InputAnswerKind::Text, "  hello "), Some("hello".to_string()));
}
