use github_release_bot::text::{chars_of, is_blank, is_whitespace_char, string_of};
use github_release_bot::utils::html_escape;
use std::borrow::Cow;

#[test]
fn html_escape_leaves_plain_text_borrowed() {
    let escaped = html_escape("owner/repo v1.2.3");
    assert!(matches!(escaped, Cow::Borrowed(_)));
    assert_eq!(escaped, "owner/repo v1.2.3");
}

#[test]
fn html_escape_empty_input() {
    let escaped = html_escape("");
    assert!(matches!(escaped, Cow::Borrowed(_)));
    assert_eq!(escaped, "");
}

#[test]
fn html_escape_rewrites_each_special_character() {
    assert_eq!(html_escape("&"), "&amp;");
    assert_eq!(html_escape("<"), "&lt;");
    assert_eq!(html_escape(">"), "&gt;");
    assert_eq!(html_escape("\""), "&quot;");
    assert_eq!(html_escape("'"), "&#39;");
}

#[test]
fn html_escape_mixed_text_is_owned() {
    let escaped = html_escape("<a href=\"x\">Tom & 'Jerry'</a>");
    assert!(matches!(escaped, Cow::Owned(_)));
    assert_eq!(
        escaped,
        "&lt;a href=&quot;x&quot;&gt;Tom &amp; &#39;Jerry&#39;&lt;/a&gt;"
    );
}

#[test]
fn html_escape_does_not_escape_twice_on_its_own() {
    assert_eq!(html_escape("&amp;"), "&amp;amp;");
}

#[test]
fn html_escape_keeps_non_ascii_text() {
    assert_eq!(html_escape("caf\u{e9} <\u{1F680}>"), "caf\u{e9} &lt;\u{1F680}&gt;");
}

#[test]
fn chars_round_trip_through_strings() {
    let chars = chars_of("h\u{e9}llo");
    assert_eq!(chars, vec!['h', '\u{e9}', 'l', 'l', 'o']);
    assert_eq!(string_of(&chars, 0, chars.len()), "h\u{e9}llo");
    assert_eq!(string_of(&chars, 1, 3), "\u{e9}l");
    assert_eq!(string_of(&chars, 2, 2), "");
}

#[test]
fn whitespace_is_what_std_calls_whitespace() {
    let mut code: u32 = 0;
    while code <= 0x3100 {
        if let Some(c) = char::from_u32(code) {
            assert_eq!(is_whitespace_char(c), c.is_whitespace(), "U+{:04X}", code);
        }
        code += 1;
    }
}

#[test]
fn blank_text_is_empty_or_whitespace_only() {
    assert!(is_blank(""));
    assert!(is_blank("   "));
    assert!(is_blank("\t\n\u{a0}"));
    assert!(!is_blank(" v1 "));
    assert!(!is_blank("v"));
}
