use devin::commands::show::{can_mask, mask_token, show, try_mask_token};
use devin::commands::{Report, CONFIGURE_HINT, NOT_CONFIGURED};
use devin::output::{Line, Style};

#[test]
fn test_mask_token() {
    assert_eq!(mask_token("12345678"), "12345678");
    assert_eq!(mask_token("1234567890"), "1234...7890");
    assert_eq!(mask_token("abcdefghijklmnopqrstuvwxyz"), "abcd...wxyz");
}

#[test]
fn short_tokens_are_shown_whole() {
    assert_eq!(mask_token(""), "");
    assert_eq!(mask_token("a"), "a");
    assert_eq!(mask_token("1234567"), "1234567");
}

#[test]
fn nine_bytes_are_masked() {
    assert_eq!(mask_token("123456789"), "1234...6789");
    assert_eq!(mask_token("test-token-cli"), "test...-cli");
}

#[test]
fn masking_counts_bytes() {
    // five characters of two bytes each: ten bytes
    assert!(can_mask("\u{e9}\u{e9}\u{e9}\u{e9}\u{e9}"));
    assert_eq!(mask_token("\u{e9}\u{e9}\u{e9}\u{e9}\u{e9}"), "\u{e9}\u{e9}...\u{e9}\u{e9}");
    // eight bytes in four characters: shown whole
    assert_eq!(mask_token("\u{e9}\u{e9}\u{e9}\u{e9}"), "\u{e9}\u{e9}\u{e9}\u{e9}");
}

#[test]
fn a_token_that_splits_inside_a_character_cannot_be_masked() {
    // the fourth byte is the second byte of a character
    let token = "abc\u{e9}defghij";
    assert!(!can_mask(token));
    assert_eq!(try_mask_token(token), None);
    // the fourth byte from the end is the second byte of a character
    let token = "abcdefgh\u{e9}xyz";
    assert!(!can_mask(token));
    assert_eq!(try_mask_token(token), None);
}

#[test]
fn try_mask_token_masks_what_can_be_masked() {
    assert_eq!(try_mask_token("1234567890"), Some("1234...7890".to_string()));
    assert_eq!(try_mask_token("short"), Some("short".to_string()));
    assert_eq!(try_mask_token("abc\u{e9}"), Some("abc\u{e9}".to_string()));
}

#[test]
fn show_prints_the_masked_token() {
    let report = show(Ok("test-token-cli".to_string()));
    assert_eq!(
        report,
        Report { lines: vec![Line::plain("API Token: test...-cli")], failure: None }
    );
    assert_eq!(report.lines[0].text(), "API Token: test...-cli");
}

#[test]
fn show_without_a_token_says_how_to_configure_one() {
    let report = show(Err("API token not found".to_string()));
    assert_eq!(report.failure, Some("API token not found".to_string()));
    assert_eq!(report.lines.len(), 2);
    assert_eq!(
        report.lines[0],
        Line::new().with(Style::Failure, NOT_CONFIGURED).with(Style::Plain, " API token not found")
    );
    assert_eq!(report.lines[0].text(), "\u{2717} API token not configured: API token not found");
    assert!(report.lines[0].is_failure());
    assert_eq!(report.lines[1], Line::plain(CONFIGURE_HINT));
    assert_eq!(
        report.lines[1].text(),
        "\nRun 'devin configure <token>' to set up your API token."
    );
}
