//! The character-level rules.

use mnemosyne::text::{decimal_text, parse_lenient, quote_body, settle, snippet_text, unfence};

fn even(text: &str) -> Result<u32, String> {
    match text.parse::<u32>() {
        Ok(n) if n % 2 == 0 => Ok(n),
        Ok(_) => Err("odd".to_string()),
        Err(e) => Err(e.to_string()),
    }
}

#[test]
fn numbers_are_written_in_decimal() {
    assert_eq!(decimal_text(0), "0");
    assert_eq!(decimal_text(10), "10");
    assert_eq!(decimal_text(404), "404");
    assert_eq!(decimal_text(u64::MAX), "18446744073709551615");
}

#[test]
fn snippets_count_characters() {
    assert_eq!(snippet_text("short"), "short");
    assert_eq!(snippet_text(&"é".repeat(500)), "é".repeat(500));
    assert_eq!(snippet_text(&"é".repeat(501)), "é".repeat(500));
    assert_eq!(quote_body("bad", "body"), "bad; body snippet: body");
}

#[test]
fn a_fence_and_its_white_space_are_stripped() {
    assert_eq!(unfence("  plain \n"), "plain");
    assert_eq!(unfence("```json\n1\n```"), "1");
    assert_eq!(unfence("\u{3000}```\n1\n```\u{a0}"), "1");
    assert_eq!(unfence("```json 1"), "1");
    assert_eq!(unfence(" ```\n1 \n"), "1");
    assert_eq!(unfence("```"), "");
    assert_eq!(unfence("``````"), "");
    assert_eq!(unfence("a ```json 1```"), "a ```json 1```");
    assert_eq!(unfence("1```"), "1```");
    assert_eq!(unfence(" \t\n"), "");
}

#[test]
fn a_readable_reply_is_not_touched() {
    assert_eq!(parse_lenient("4", even), Ok(4));
}

#[test]
fn a_fenced_reply_reads_as_its_body() {
    assert_eq!(parse_lenient("\n```json\n 12 \n```\n", even), Ok(12));
    assert_eq!(parse_lenient("``` 12 ```", even), Ok(12));
    assert_eq!(parse_lenient(" 12 ", even), Ok(12));
}

#[test]
fn the_error_is_that_of_the_second_reading() {
    assert_eq!(
        parse_lenient("```json\n3\n```", even),
        Err("odd (after stripping fences)".to_string())
    );
    assert_eq!(settle::<u32>(Err("odd".to_string())), Err("odd (after stripping fences)".to_string()));
    assert_eq!(settle(Ok(4u32)), Ok(4));
}
