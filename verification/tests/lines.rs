use ccs::input::{Message, Usage};
use ccs::lines::{split_lines, CARRIAGE_RETURN, LINE_FEED};
use ccs::{TokenCount, TranscriptEntry};
use serde_json::Value;
use std::io::BufRead;

fn lines(text: &str) -> Vec<String> {
    split_lines(text.as_bytes())
        .into_iter()
        .map(|line| String::from_utf8(line).unwrap())
        .collect()
}

/// Decodes one line as the program does: every field may be missing, a
/// field of another type than expected spoils the line.
fn decode(line: &[u8]) -> Option<TranscriptEntry> {
    fn count(usage: &Value, name: &str) -> Option<Option<u64>> {
        match usage.get(name) {
            None | Some(Value::Null) => Some(None),
            Some(n) => n.as_u64().map(Some),
        }
    }
    let text = std::str::from_utf8(line).ok()?;
    let record: Value = serde_json::from_str(text).ok()?;
    let fields = record.as_object()?;
    let entry_type = match fields.get("type") {
        None | Some(Value::Null) => None,
        Some(kind) => Some(kind.as_str()?.to_string()),
    };
    let message = match fields.get("message") {
        None | Some(Value::Null) => None,
        Some(message) => {
            let usage = match message.as_object()?.get("usage") {
                None | Some(Value::Null) => None,
                Some(usage) => {
                    usage.as_object()?;
                    Some(Usage::new(
                        count(usage, "input_tokens")?,
                        count(usage, "output_tokens")?,
                        count(usage, "cache_creation_input_tokens")?,
                        count(usage, "cache_read_input_tokens")?,
                    ))
                }
            };
            Some(Message { usage })
        }
    };
    Some(TranscriptEntry { entry_type, message })
}

fn count_of(content: &str) -> u64 {
    let transcript = Some(
        split_lines(content.as_bytes())
            .iter()
            .map(|line| decode(line))
            .collect(),
    );
    assert!(TokenCount::is_summable(&transcript));
    *TokenCount::aggregate(transcript)
}

#[test]
fn the_bytes_that_end_a_line() {
    assert_eq!(LINE_FEED, b'\n');
    assert_eq!(CARRIAGE_RETURN, b'\r');
}

#[test]
fn an_empty_file_has_no_lines() {
    assert_eq!(lines(""), Vec::<String>::new());
}

#[test]
fn a_line_ends_with_a_line_feed() {
    assert_eq!(lines("a\n"), ["a"]);
    assert_eq!(lines("a\nbc\n"), ["a", "bc"]);
    assert_eq!(lines("\n"), [""]);
    assert_eq!(lines("\n\n"), ["", ""]);
    assert_eq!(lines("a\n\nb\n"), ["a", "", "b"]);
}

#[test]
fn what_follows_the_last_line_feed_is_a_line_too() {
    assert_eq!(lines("a"), ["a"]);
    assert_eq!(lines("a\nb"), ["a", "b"]);
    assert_eq!(lines("\nb"), ["", "b"]);
}

#[test]
fn a_carriage_return_before_the_line_feed_is_dropped() {
    assert_eq!(lines("a\r\nb\r\n"), ["a", "b"]);
    assert_eq!(lines("\r\n"), [""]);
    assert_eq!(lines("a\r\r\n"), ["a\r"]);
    assert_eq!(lines("a\rb\n"), ["a\rb"]);
}

#[test]
fn a_carriage_return_without_line_feed_stays() {
    assert_eq!(lines("a\r"), ["a\r"]);
    assert_eq!(lines("a\nb\r"), ["a", "b\r"]);
    assert_eq!(lines("\r"), ["\r"]);
}

#[test]
fn lines_may_hold_any_bytes() {
    let bytes = [0xff, 0x00, b'\n', 0xc3, b'\r', b'\n', 0xfe];
    assert_eq!(
        split_lines(&bytes),
        vec![vec![0xff, 0x00], vec![0xc3], vec![0xfe]]
    );
}

#[test]
fn lines_are_those_that_a_buffered_reader_gives() {
    let parts = ["", "a", "bc", "\n", "\r", "\r\n", "\n\n", "{}", " "];
    for a in parts {
        for b in parts {
            for c in parts {
                for d in parts {
                    let text = format!("{a}{b}{c}{d}");
                    let expected: Vec<String> =
                        text.as_bytes().lines().map(|line| line.unwrap()).collect();
                    assert_eq!(lines(&text), expected, "for {text:?}");
                }
            }
        }
    }
}

#[test]
fn a_transcript_file_ends_on_its_last_assistant_usage() {
    let content = [
        "{\"type\":\"assistant\",\"message\":{\"usage\":{\"input_tokens\":60,\"output_tokens\":40}}}\n",
        "{\"type\":\"assistant\",\"message\":{\"usage\":{\"input_tokens\":200,\"cache_read_input_tokens\":50}}}\n",
        "{\"type\":\"assistant\",\"message\":{\"usage\":{\"input_tokens\":100,\"output_tokens\":100,\"cache_creation_input_tokens\":100,\"cache_read_input_tokens\":100}}}\n",
        "{\"type\":\"user\",\"message\":{\"role\":\"user\"}}\n",
    ]
    .concat();
    assert_eq!(count_of(&content), 400);
}

#[test]
fn a_malformed_line_spoils_nothing_but_itself() {
    let content = [
        "{\"type\":\"assistant\",\"message\":{\"usage\":{\"input_tokens\":100}}}\r\n",
        "not json at all\r\n",
        "{\"type\":\"assistant\",\"message\":{\"usage\":{\"input_tokens\":250}}}\r\n",
        "{\"type\":\"assistant\",\"message\":{\"usage\":{\"input_tokens\":\"many\"}}}\r\n",
        "{\"type\":\"assistant\",\"message\":{\"usage\":{\"input_tokens\":400}}\r\n",
        "\r\n",
        "{\"type\":\"user\",\"message\":{\"usage\":{\"input_tokens\":999}}}",
    ]
    .concat();
    assert_eq!(count_of(&content), 250);
}

#[test]
fn a_transcript_file_without_usage_counts_zero() {
    assert_eq!(count_of(""), 0);
    assert_eq!(count_of("\n\n"), 0);
    assert_eq!(count_of("{\"type\":\"user\"}\n{\"type\":\"assistant\"}\n"), 0);
}
