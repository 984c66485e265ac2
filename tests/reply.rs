use keysynth::gemini_player::GeminiPlayer;
use keysynth::reply_text::{chars_of, find_json_span, is_space_char};

fn span(text: &str) -> Option<String> {
    find_json_span(text).map(|v| v.into_iter().collect())
}

#[test]
fn chars_of_keeps_every_char() {
    assert_eq!(chars_of("h\u{e9}llo"), vec!['h', '\u{e9}', 'l', 'l', 'o']);
    assert!(chars_of("").is_empty());
}

#[test]
fn spaces() {
    assert!(is_space_char(' '));
    assert!(is_space_char('\n'));
    assert!(is_space_char('\u{3000}'));
    assert!(is_space_char('\u{85}'));
    assert!(!is_space_char('a'));
    assert!(!is_space_char('\u{200B}'));
    for c in ['\t', '\r', '\u{a0}', '\u{2009}', 'x', '{', '\u{200B}'] {
        assert_eq!(is_space_char(c), c.is_whitespace());
    }
}

#[test]
fn span_of_fenced_reply() {
    let reply = "```json\n{\"a\": 1}\n```";
    assert_eq!(span(reply), Some("{\"a\": 1}".to_string()));
}

#[test]
fn span_drops_blank_lines_and_crlf() {
    let reply = "  \r\n{\"notes\":[\"a\"],\r\n \"durations\":[300]}\r\n\r\n";
    assert_eq!(span(reply), Some("{\"notes\":[\"a\"], \"durations\":[300]}".to_string()));
}

#[test]
fn span_removes_the_word_json() {
    assert_eq!(span("{\"json\": 1}"), Some("{\"\": 1}".to_string()));
    assert_eq!(span("jsjsonon {}"), Some("{}".to_string()));
}

#[test]
fn span_needs_braces_in_order() {
    assert_eq!(span("no object here"), None);
    assert_eq!(span("} then {"), None);
    assert_eq!(span(""), None);
    assert_eq!(span("x { a } y } z"), Some("{ a } y }".to_string()));
}

#[test]
fn extract_json_compacts() {
    let reply = "Here it is:\n```json\n{\"mood\": \"happy\"}\n```\n";
    assert_eq!(GeminiPlayer::extract_json(reply), Some("{\"mood\":\"happy\"}".to_string()));
    assert_eq!(
        GeminiPlayer::extract_json("{\"durations\": [300, 400]}"),
        Some("{\"durations\":[300,400]}".to_string())
    );
}

#[test]
fn extract_json_rejects_what_does_not_parse() {
    assert_eq!(GeminiPlayer::extract_json("{not json}"), None);
    assert_eq!(GeminiPlayer::extract_json("nothing"), None);
}
