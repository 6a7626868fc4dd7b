use orchestra::request::{parse_tasks_from_input_txt, parsing_request_function};
use orchestra::text::{join_strings, split_semicolon_items, trimmed, usize_text};

#[test]
fn free_text_parse_yields_two_items() {
    let items = parsing_request_function("# alpha\n> step1\n- rule1\n# beta\n");
    assert_eq!(items.len(), 2);
    assert_eq!(items[0].name, "alpha");
    assert_eq!(items[0].step, vec!["step1".to_string()]);
    assert_eq!(items[0].rule, vec!["rule1".to_string()]);
    assert_eq!(items[0].task_type, "action");
    assert_eq!(items[1].name, "beta");
    assert!(items[1].step.is_empty());
}

#[test]
fn free_text_without_header_yields_nothing() {
    assert!(parsing_request_function("> step\n- rule\nplain text\n").is_empty());
    assert!(parsing_request_function("").is_empty());
}

#[test]
fn empty_header_closes_and_drops() {
    let items = parse_tasks_from_input_txt("  #  one \r\n>  s \n#\n> lost\n-   \n# two");
    assert_eq!(items.len(), 2);
    assert_eq!(items[0].name, "one");
    assert_eq!(items[0].step, vec!["s".to_string()]);
    assert_eq!(items[1].name, "two");
}

#[test]
fn text_helpers_behave_like_std() {
    assert_eq!(trimmed("\u{3000} a b \t"), "a b");
    assert_eq!(split_semicolon_items(" a ;; b;"), vec!["a".to_string(), "b".to_string()]);
    assert_eq!(join_strings(&vec!["x".to_string(), "y".to_string()], "; "), "x; y");
    assert_eq!(usize_text(0), "0");
    assert_eq!(usize_text(1203), "1203");
}
