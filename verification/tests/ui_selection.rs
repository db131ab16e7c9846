use recpart::tui::{enforce_terminal_minimum, parse_selection_input, parse_yes_no};

#[test]
fn parse_selection_default_when_empty() {
    assert_eq!(parse_selection_input("  ", 5, 2), Ok(2));
}

#[test]
fn parse_selection_rejects_out_of_range() {
    let err = parse_selection_input("9", 3, 1).expect_err("must fail");
    assert!(err.contains("between 1 and 3"));
}

#[test]
fn parse_selection_accepts_valid_index() {
    assert_eq!(parse_selection_input("3", 3, 1), Ok(3));
}

#[test]
fn parse_selection_messages_are_exact() {
    assert_eq!(
        parse_selection_input("0", 3, 1),
        Err("Selection must be between 1 and 3.".to_string())
    );
    assert_eq!(
        parse_selection_input("two", 3, 1),
        Err("Enter a number from the displayed list.".to_string())
    );
    assert_eq!(
        parse_selection_input("-1", 3, 1),
        Err("Enter a number from the displayed list.".to_string())
    );
    assert_eq!(
        parse_selection_input("99999999999999999999999999", 3, 1),
        Err("Enter a number from the displayed list.".to_string())
    );
    assert_eq!(parse_selection_input(" +2\n", 3, 1), Ok(2));
    assert_eq!(parse_selection_input("\t007 ", 9, 1), Ok(7));
}

#[test]
fn yes_no_answers() {
    assert_eq!(parse_yes_no("", true), Some(true));
    assert_eq!(parse_yes_no("  \n", false), Some(false));
    assert_eq!(parse_yes_no("Y\n", false), Some(true));
    assert_eq!(parse_yes_no(" yes ", false), Some(true));
    assert_eq!(parse_yes_no("N", true), Some(false));
    assert_eq!(parse_yes_no("No\n", true), Some(false));
    assert_eq!(parse_yes_no("maybe", true), None);
}

#[test]
fn terminal_minimum() {
    assert!(enforce_terminal_minimum(None).is_ok());
    assert!(enforce_terminal_minimum(Some((80, 24))).is_ok());
    let err = enforce_terminal_minimum(Some((79, 23))).expect_err("too small");
    assert_eq!(err.code.exit_code(), 12);
    assert_eq!(err.expectation, "terminal is at least 80x24");
    assert_eq!(err.observed, "detected terminal size 79x23");
    assert_eq!(
        err.remediation,
        "Resize terminal to at least 80 columns and 24 rows and retry."
    );
}

#[test]
fn tui_rejects_terminal_below_minimum_size() {
    let size = recpart::tui::terminal_size_from_env(&Some("79".to_string()), &Some("23".to_string()));
    assert_eq!(size, Some((79, 23)));
    let err = enforce_terminal_minimum(size).expect_err("terminal too small");
    assert_eq!(err.code.exit_code(), 12);
    let stderr = format!("recpart: {}", err.to_text());
    assert!(
        stderr.contains("Resize terminal to at least 80 columns and 24 rows"),
        "unexpected stderr: {stderr}"
    );
}
