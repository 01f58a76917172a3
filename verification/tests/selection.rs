use vigil::error::VigilError;
use vigil::text::{
    char_is_space, copy_strings, decimal_string, signed_decimal_string, str_eq, str_is_blank,
};
use vigil::ui::{error_line, prompt_user_to_select_session, select_session, status_line};

fn selection_strings(items: &[&str]) -> Vec<String> {
    items.iter().map(|s| s.to_string()).collect()
}

#[test]
fn empty_input_selects_the_first_session() {
    let sessions = selection_strings(&["a", "b", "c"]);
    assert_eq!(select_session(&sessions, ""), Ok("a".to_string()));
    assert_eq!(select_session(&sessions, "\n"), Ok("a".to_string()));
    assert_eq!(select_session(&sessions, "  \t\r\n"), Ok("a".to_string()));
}

#[test]
fn out_of_range_input_is_an_invalid_selection() {
    let sessions = selection_strings(&["a", "b", "c"]);
    assert_eq!(select_session(&sessions, "5"), Err(VigilError::InvalidSelection));
    assert_eq!(select_session(&sessions, "4\n"), Err(VigilError::InvalidSelection));
    assert_eq!(select_session(&sessions, "0"), Err(VigilError::InvalidSelection));
}

#[test]
fn number_selects_by_one_based_index() {
    let sessions = selection_strings(&["a", "b", "c"]);
    assert_eq!(select_session(&sessions, "1\n"), Ok("a".to_string()));
    assert_eq!(select_session(&sessions, "2\n"), Ok("b".to_string()));
    assert_eq!(select_session(&sessions, " 3 \r\n"), Ok("c".to_string()));
    assert_eq!(select_session(&sessions, "+2"), Ok("b".to_string()));
    assert_eq!(select_session(&sessions, "002"), Ok("b".to_string()));
}

#[test]
fn input_that_is_no_number_is_an_invalid_selection() {
    let sessions = selection_strings(&["a", "b", "c"]);
    for input in ["x", "-1", "1.0", "1 2", "two", "+", "++1", "1_0", "0x1", "١"] {
        assert_eq!(select_session(&sessions, input), Err(VigilError::InvalidSelection));
    }
}

#[test]
fn huge_numbers_are_an_invalid_selection() {
    let sessions = selection_strings(&["a", "b", "c"]);
    assert_eq!(
        select_session(&sessions, "18446744073709551616"),
        Err(VigilError::InvalidSelection)
    );
    assert_eq!(
        select_session(&sessions, "99999999999999999999999999999999999999999"),
        Err(VigilError::InvalidSelection)
    );
    assert_eq!(
        select_session(&sessions, "000000000000000000000000000000000000000003"),
        Ok("c".to_string())
    );
}

#[test]
fn selection_from_no_sessions_is_invalid() {
    let sessions: Vec<String> = Vec::new();
    assert_eq!(select_session(&sessions, ""), Err(VigilError::InvalidSelection));
    assert_eq!(select_session(&sessions, "1"), Err(VigilError::InvalidSelection));
}

#[test]
fn selection_agrees_with_trim_and_parse() {
    let sessions = selection_strings(&["a", "b", "c", "d", "e", "f", "g", "h", "i", "j", "k"]);
    let inputs = [
        "", "1", "10", "11", "12", " 7\n", "+11", "-0", "00", "010", "abc", "3x", "\u{a0}4\u{3000}",
    ];
    for input in inputs {
        let trimmed = input.trim();
        let index = if trimmed.is_empty() { 1 } else { trimmed.parse::<usize>().unwrap_or(0) };
        let expected = if index == 0 || index > sessions.len() {
            Err(VigilError::InvalidSelection)
        } else {
            Ok(sessions[index - 1].clone())
        };
        assert_eq!(select_session(&sessions, input), expected);
    }
}

#[test]
fn prompt_numbers_the_sessions_from_one() {
    let sessions = selection_strings(&["main", "dev"]);
    assert_eq!(
        prompt_user_to_select_session("kill", &sessions),
        "[vigil] Select a session to kill:\n  1. main\n  2. dev\nEnter number (or press Enter for 1): "
    );
}

#[test]
fn prompt_numbers_past_nine() {
    let sessions = selection_strings(&["a", "b", "c", "d", "e", "f", "g", "h", "i", "j", "k"]);
    let text = prompt_user_to_select_session("attach", &sessions);
    assert!(text.starts_with("[vigil] Select a session to attach:\n  1. a\n"));
    assert!(text.contains("\n  9. i\n  10. j\n  11. k\nEnter number"));
}

#[test]
fn status_and_error_lines_carry_the_tag() {
    assert_eq!(status_line("hello"), "[vigil] hello");
    assert_eq!(error_line("boom"), "[vigil] ERROR: boom");
    assert_eq!(status_line(""), "[vigil] ");
}

#[test]
fn decimal_notation_of_numbers() {
    assert_eq!(decimal_string(0), "0");
    assert_eq!(decimal_string(7), "7");
    assert_eq!(decimal_string(10), "10");
    assert_eq!(decimal_string(127), "127");
    assert_eq!(decimal_string(u64::MAX), "18446744073709551615");
    assert_eq!(signed_decimal_string(0), "0");
    assert_eq!(signed_decimal_string(255), "255");
    assert_eq!(signed_decimal_string(-1), "-1");
    assert_eq!(signed_decimal_string(i32::MIN), "-2147483648");
    assert_eq!(signed_decimal_string(i32::MAX), "2147483647");
}

#[test]
fn white_space_is_what_the_standard_library_calls_white_space() {
    let mut n: u32 = 0;
    while n <= 0x10FFFF {
        if let Some(c) = char::from_u32(n) {
            assert_eq!(char_is_space(c), c.is_whitespace());
        }
        n += 1;
    }
}

#[test]
fn blank_strings_hold_only_white_space() {
    assert!(str_is_blank(""));
    assert!(str_is_blank(" \t\n\r\u{a0}"));
    assert!(!str_is_blank(" x "));
    assert!(!str_is_blank("-"));
}

#[test]
fn string_equality_compares_contents() {
    assert!(str_eq("", ""));
    assert!(str_eq("--list", "--list"));
    assert!(!str_eq("--list", "--lisT"));
    assert!(!str_eq("-t", "-tt"));
    assert!(!str_eq("é", "e"));
    assert!(str_eq("naïve ☃", "naïve ☃"));
}

#[test]
fn strings_are_copied_in_order() {
    let v = selection_strings(&["a", "", "c d"]);
    assert_eq!(copy_strings(&v), v);
    assert_eq!(copy_strings(&[]), Vec::<String>::new());
}

#[test]
fn shown_number_selects_its_session() {
    let sessions = selection_strings(&["a", "b", "c", "d", "e", "f", "g", "h", "i", "j", "k"]);
    for i in 0..sessions.len() {
        let typed = format!("{}\n", decimal_string(i as u64 + 1));
        assert_eq!(select_session(&sessions, &typed), Ok(sessions[i].clone()));
    }
}
