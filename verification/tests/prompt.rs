use auth0m2m::prompt::{confirm, confirm_text, prompt_label, prompt_text, AbortSignal};

#[test]
fn questions_come_in_a_fixed_order() {
    assert_eq!(prompt_label(0), Some("client_id"));
    assert_eq!(prompt_label(1), Some("client_secret"));
    assert_eq!(prompt_label(2), Some("audience"));
    assert_eq!(prompt_label(3), Some("domain"));
}

#[test]
fn there_are_four_questions() {
    assert_eq!(prompt_label(4), None);
    assert_eq!(prompt_label(5), None);
    assert_eq!(prompt_label(usize::MAX), None);
}

#[test]
fn prompt_text_ends_in_an_angle_and_a_space() {
    assert_eq!(prompt_text("client_id"), "client_id> ");
    assert_eq!(prompt_text("domain"), "domain> ");
    assert_eq!(prompt_text(""), "> ");
}

#[test]
fn confirm_text_asks_whether_to_continue() {
    assert_eq!(confirm_text("x exists."), "x exists. Continue? [y/N] ");
    assert_eq!(confirm_text(""), " Continue? [y/N] ");
}

#[test]
fn confirm_takes_y() {
    assert_eq!(confirm("y"), Ok(()));
    assert_eq!(confirm("y\n"), Ok(()));
    assert_eq!(confirm("  y  \r\n"), Ok(()));
}

#[test]
fn confirm_takes_y_in_upper_case() {
    assert_eq!(confirm("Y"), Ok(()));
    assert_eq!(confirm("Y\n"), Ok(()));
    assert_eq!(confirm("\tY "), Ok(()));
}

#[test]
fn confirm_refuses_every_other_answer() {
    for answer in ["yes", "", "n", "no", "N", "\n", "   ", "yy", "y y", "ye", "Yes", "YES"] {
        assert_eq!(confirm(answer), Err(AbortSignal {}), "{:?}", answer);
    }
}

#[test]
fn confirm_refuses_what_only_looks_like_y() {
    // Only ASCII letters are folded, and nothing is dropped inside the answer.
    assert_eq!(confirm("ｙ"), Err(AbortSignal {}));
    assert_eq!(confirm("ý"), Err(AbortSignal {}));
    assert_eq!(confirm("\u{200b}y"), Err(AbortSignal {}));
    assert_eq!(confirm("9"), Err(AbortSignal {}));
    assert_eq!(confirm("\u{59}\u{301}"), Err(AbortSignal {}));
}

#[test]
fn confirm_agrees_with_trimming_and_lower_casing() {
    for answer in ["y", "Y", " y", "Y ", "n", "", "yes", "\ty\n", "x", "Yy"] {
        let expected = answer.trim().to_ascii_lowercase() == "y";
        assert_eq!(confirm(answer).is_ok(), expected, "{:?}", answer);
    }
}

#[test]
fn abort_signal_says_aborting() {
    assert_eq!(AbortSignal {}.message(), "Aborting.");
}
