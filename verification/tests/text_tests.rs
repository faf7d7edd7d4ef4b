use inachus::text::{pad_right_ansi_aware, strip_ansi};

#[test]
fn test_strip_ansi() {
    let colored = "\x1b[32mHello\x1b[0m";
    assert_eq!(strip_ansi(colored), "Hello");
}

#[test]
fn test_pad_right_ansi_aware() {
    let colored = "\x1b[32mHello\x1b[0m";
    let padded = pad_right_ansi_aware(colored, 10);
    assert_eq!(padded.len() - colored.len(), 5);
    assert_eq!(strip_ansi(&padded).len(), 10);
}

#[test]
fn strip_ansi_leaves_plain_text_alone() {
    assert_eq!(strip_ansi("plain text"), "plain text");
    assert_eq!(strip_ansi(""), "");
}

#[test]
fn strip_ansi_removes_multi_parameter_codes() {
    assert_eq!(strip_ansi("\x1b[1;31mA\x1b[0mB"), "AB");
}

#[test]
fn strip_ansi_keeps_incomplete_codes() {
    assert_eq!(strip_ansi("\x1b[31"), "\x1b[31");
    assert_eq!(strip_ansi("\x1b[31x"), "\x1b[31x");
}

#[test]
fn pad_right_is_a_no_op_when_wide_enough() {
    assert_eq!(pad_right_ansi_aware("abc", 2), "abc");
    assert_eq!(pad_right_ansi_aware("abc", 3), "abc");
}
