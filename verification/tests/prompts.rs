use std::io::Cursor;
use std::str::FromStr;

use tweetr::util::mul_str;
use tweetr::util::prompt_any_len;
use tweetr::util::prompt_exact_len;
use tweetr::util::prompt_multiline;
use tweetr::util::prompt_nonzero_len;

#[test]
fn mul_str_repeats() {
    assert_eq!(mul_str("Го! ", 3), "Го! Го! Го! ".to_string());
}

#[test]
fn mul_str_edge_cases() {
    assert_eq!(mul_str("ab", 0), "".to_string());
    assert_eq!(mul_str("", 5), "".to_string());
    assert_eq!(mul_str(" ", 4), "    ".to_string());
}

#[test]
fn exact_len_accepts_matching_length() {
    assert_eq!(
        prompt_exact_len(
            &mut Cursor::new(b"0123456789"),
            &mut Vec::new(),
            "Allowed chars",
            |_| true,
            10
        )
        .unwrap(),
        "0123456789".to_string()
    );
}

#[test]
fn exact_len_accepts_long_number() {
    assert_eq!(
        prompt_exact_len(
            &mut Cursor::new(b"1234567890"),
            &mut Vec::new(),
            "Long number",
            |s| u64::from_str(s).is_ok(),
            10
        )
        .unwrap(),
        "1234567890".to_string()
    );
}

#[test]
fn exact_len_rejection_then_end_of_input_fails() {
    assert!(prompt_exact_len(
        &mut Cursor::new(b"1234abcdef"),
        &mut Vec::new(),
        "Long number",
        |s| u64::from_str(s).is_ok(),
        10
    )
    .is_err());
}

#[test]
fn exact_len_retries_until_length_matches() {
    let mut out = Vec::new();
    assert_eq!(
        prompt_exact_len(
            &mut Cursor::new(b"toolong\nab\n"),
            &mut out,
            "Code",
            |_| true,
            2
        )
        .unwrap(),
        "ab".to_string()
    );
    assert_eq!(out, b"Code: Code: ".to_vec());
}

#[test]
fn exact_len_zero_returns_empty_without_reading() {
    let mut out = Vec::new();
    assert_eq!(
        prompt_exact_len(&mut Cursor::new(b""), &mut out, "Nothing", |_| true, 0).unwrap(),
        "".to_string()
    );
    assert_eq!(out, b"".to_vec());
}

#[test]
fn nonzero_len_accepts_anything_nonempty() {
    assert_eq!(
        prompt_nonzero_len(
            &mut Cursor::new(b"123456789"),
            &mut Vec::new(),
            "Allowed chars",
            |_| true
        )
        .unwrap(),
        "123456789".to_string()
    );
}

#[test]
fn nonzero_len_returns_trimmed_line() {
    assert_eq!(
        prompt_nonzero_len(
            &mut Cursor::new(b"  hello world  \n"),
            &mut Vec::new(),
            "Text",
            |_| true
        )
        .unwrap(),
        "hello world".to_string()
    );
}

#[test]
fn nonzero_len_rejection_then_end_of_input_fails() {
    assert!(prompt_nonzero_len(
        &mut Cursor::new(b"123abcdef"),
        &mut Vec::new(),
        "Number",
        |s| u64::from_str(s).is_ok()
    )
    .is_err());
}

#[test]
fn nonzero_len_skips_blank_lines() {
    assert_eq!(
        prompt_nonzero_len(
            &mut Cursor::new(b"\n   \nvalue\n"),
            &mut Vec::new(),
            "Name",
            |_| true
        )
        .unwrap(),
        "value".to_string()
    );
}

#[test]
fn any_len_returns_some_on_content() {
    assert_eq!(
        prompt_any_len(
            &mut Cursor::new(b"123456789"),
            &mut Vec::new(),
            "Allowed chars",
            |_| true
        )
        .unwrap()
        .unwrap(),
        "123456789".to_string()
    );
}

#[test]
fn any_len_returns_none_on_empty_input() {
    assert_eq!(
        prompt_any_len(&mut Cursor::new(b""), &mut Vec::new(), "Allowed chars", |_| true).unwrap(),
        None
    );
}

#[test]
fn any_len_returns_none_on_rejected_input() {
    assert_eq!(
        prompt_any_len(&mut Cursor::new(b"123abcdef"), &mut Vec::new(), "Number", |s| {
            u64::from_str(s).is_ok()
        })
        .map_err(|_| ()),
        Ok(None)
    );
}

#[test]
fn multiline_joins_continuation_lines() {
    assert_eq!(
        prompt_multiline(
            &mut Cursor::new(b"Line 1\\\nLine 2\\\nLine 3"),
            &mut Vec::new(),
            "Lines",
            |_| true
        )
        .unwrap(),
        "Line 1\nLine 2\nLine 3".to_string()
    );
}

#[test]
fn multiline_collapses_escaped_backslash_pair() {
    assert_eq!(
        prompt_multiline(
            &mut Cursor::new(b"Line 0\\\\\n"),
            &mut Vec::new(),
            "Escaped line",
            |_| true
        )
        .unwrap(),
        "Line 0\\".to_string()
    );
}

#[test]
fn multiline_odd_backslash_run_continues() {
    // three trailing backslashes: an odd run, so the line continues and
    // keeps one escaped backslash pair ahead of the newline
    assert_eq!(
        prompt_multiline(
            &mut Cursor::new(b"A\\\\\\\nB\n"),
            &mut Vec::new(),
            "Lines",
            |_| true
        )
        .unwrap(),
        "A\\\\\nB".to_string()
    );
}

#[test]
fn multiline_validator_restarts_input() {
    assert_eq!(
        prompt_multiline(
            &mut Cursor::new(b"Line 1\\\nLine 2\nLine 9\\\nLine 8\\\nLine 7\n"),
            &mut Vec::new(),
            "3 lines",
            |s: &String| s.lines().count() == 3
        )
        .unwrap(),
        "Line 9\nLine 8\nLine 7".to_string()
    );
}

#[test]
fn multiline_prompts_align_under_first_prompt() {
    let mut out = Vec::new();
    assert_eq!(
        prompt_multiline(
            &mut Cursor::new(b"Line 1\\\nLine 2\n"),
            &mut out,
            "Lines",
            |_| true
        )
        .unwrap(),
        "Line 1\nLine 2".to_string()
    );
    assert_eq!(out, b"Lines:        ".to_vec());
}

#[test]
fn multiline_end_of_input_fails() {
    assert!(prompt_multiline(&mut Cursor::new(b""), &mut Vec::new(), "Lines", |_| true).is_err());
}

#[test]
fn multiline_end_of_input_after_continuation_appends_empty_line() {
    assert_eq!(
        prompt_multiline(
            &mut Cursor::new(b"Line 1\\\n"),
            &mut Vec::new(),
            "Lines",
            |_| true
        )
        .unwrap(),
        "Line 1\n".to_string()
    );
}

#[test]
fn multiline_blank_continuation_line_is_kept() {
    assert_eq!(
        prompt_multiline(
            &mut Cursor::new(b"Line 1\\\n\\\nLine 3\n"),
            &mut Vec::new(),
            "Lines",
            |_| true
        )
        .unwrap(),
        "Line 1\n\nLine 3".to_string()
    );
}
