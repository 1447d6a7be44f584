use ccs::input::{Message, Usage};
use ccs::{TokenCount, TranscriptEntry};

fn entry(kind: Option<&str>, usage: Option<Usage>) -> TranscriptEntry {
    TranscriptEntry {
        entry_type: kind.map(str::to_string),
        message: Some(Message { usage }),
    }
}

fn assistant(total: u64) -> TranscriptEntry {
    entry(
        Some("assistant"),
        Some(Usage::new(Some(total), None, None, None)),
    )
}

fn user() -> TranscriptEntry {
    entry(Some("user"), None)
}

/// A transcript of which every line gave an entry.
fn decoded(entries: Vec<TranscriptEntry>) -> Option<Vec<Option<TranscriptEntry>>> {
    Some(entries.into_iter().map(Some).collect())
}

fn count(transcript: Option<Vec<Option<TranscriptEntry>>>) -> u64 {
    assert!(TokenCount::is_summable(&transcript));
    *TokenCount::aggregate(transcript)
}

#[test]
fn only_the_assistant_kind_is_the_assistant() {
    assert!(entry(Some("assistant"), None).is_assistant());
    assert!(!entry(Some("user"), None).is_assistant());
    assert!(!entry(Some("Assistant"), None).is_assistant());
    assert!(!entry(Some("assistant "), None).is_assistant());
    assert!(!entry(Some("assistan"), None).is_assistant());
    assert!(!entry(Some(""), None).is_assistant());
    assert!(!entry(None, None).is_assistant());
}

#[test]
fn usage_adds_the_four_counts() {
    let e = entry(
        Some("assistant"),
        Some(Usage::new(Some(1), Some(20), Some(300), Some(4000))),
    );
    assert_eq!(e.usage(), Some(4321));
}

#[test]
fn a_missing_count_is_zero() {
    let e = entry(None, Some(Usage::new(None, Some(7), None, Some(5))));
    assert_eq!(e.usage(), Some(12));
    let e = entry(None, Some(Usage::new(None, None, None, None)));
    assert_eq!(e.usage(), Some(0));
}

#[test]
fn no_usage_is_not_zero_usage() {
    assert_eq!(entry(Some("assistant"), None).usage(), None);
    let e = TranscriptEntry { entry_type: Some("assistant".to_string()), message: None };
    assert_eq!(e.usage(), None);
}

#[test]
fn usage_may_reach_the_largest_count() {
    let e = entry(
        None,
        Some(Usage::new(Some(u64::MAX - 3), Some(1), Some(1), Some(1))),
    );
    assert!(e.usage_fits());
    assert_eq!(e.usage(), Some(u64::MAX));
}

#[test]
fn usage_beyond_the_largest_count_is_told_apart() {
    let e = entry(
        Some("assistant"),
        Some(Usage::new(Some(u64::MAX), Some(1), None, None)),
    );
    assert!(!e.usage_fits());
    let e = entry(
        Some("assistant"),
        Some(Usage::new(Some(u64::MAX - 1), None, Some(1), Some(1))),
    );
    assert!(!e.usage_fits());
    assert!(entry(Some("assistant"), None).usage_fits());
    let e = TranscriptEntry { entry_type: None, message: None };
    assert!(e.usage_fits());
}

#[test]
fn checked_total_of_a_usage() {
    assert_eq!(
        Usage::new(Some(100), Some(50), Some(25), Some(5)).checked_total(),
        Some(180)
    );
    assert_eq!(Usage::new(None, None, None, None).checked_total(), Some(0));
    assert_eq!(
        Usage::new(Some(u64::MAX), None, None, Some(1)).checked_total(),
        None
    );
}

#[test]
fn aggregate_keeps_the_last_assistant_usage() {
    let transcript = decoded(vec![assistant(100), assistant(250), assistant(400), user()]);
    assert_eq!(count(transcript), 400);
}

#[test]
fn aggregate_does_not_add_up() {
    assert_eq!(count(decoded(vec![assistant(100), assistant(250)])), 250);
    assert_eq!(count(decoded(vec![assistant(250), assistant(100)])), 100);
}

#[test]
fn other_entries_are_ignored_wherever_they_stand() {
    let other = || entry(Some("user"), Some(Usage::new(Some(9999), None, None, None)));
    for position in 0..=3 {
        let mut entries = vec![assistant(100), assistant(250), assistant(400)];
        entries.insert(position, other());
        assert_eq!(count(decoded(entries)), 400);
    }
    let untyped = entry(None, Some(Usage::new(Some(7), None, None, None)));
    assert_eq!(count(decoded(vec![assistant(5), untyped])), 5);
}

#[test]
fn an_assistant_entry_without_usage_is_dropped() {
    let entries = vec![assistant(120), entry(Some("assistant"), None)];
    assert_eq!(count(decoded(entries)), 120);
    let bare = TranscriptEntry { entry_type: Some("assistant".to_string()), message: None };
    assert_eq!(count(decoded(vec![assistant(33), bare])), 33);
}

#[test]
fn a_last_usage_of_zero_is_kept() {
    let zero = entry(
        Some("assistant"),
        Some(Usage::new(None, None, None, None)),
    );
    assert_eq!(count(decoded(vec![assistant(77), zero])), 0);
}

#[test]
fn a_line_that_gave_no_entry_is_passed_over() {
    for position in 0..=3 {
        let mut lines = vec![
            Some(assistant(100)),
            Some(assistant(250)),
            Some(assistant(400)),
        ];
        lines.insert(position, None);
        assert_eq!(count(Some(lines)), 400);
    }
    assert_eq!(count(Some(vec![None, Some(assistant(8)), None, None])), 8);
    assert_eq!(count(Some(vec![None, None])), 0);
}

#[test]
fn a_transcript_without_usage_counts_zero() {
    assert_eq!(count(Some(vec![])), 0);
    assert_eq!(count(decoded(vec![user(), entry(None, None)])), 0);
    assert_eq!(*TokenCount::default(), 0);
}

#[test]
fn a_transcript_that_could_not_be_opened_counts_zero() {
    assert_eq!(count(None), 0);
}

#[test]
fn summable_looks_at_assistant_entries_only() {
    let too_much = || Some(Usage::new(Some(u64::MAX), Some(1), None, None));
    assert!(TokenCount::is_summable(&None));
    assert!(TokenCount::is_summable(&Some(vec![])));
    assert!(TokenCount::is_summable(&Some(vec![None])));
    assert!(TokenCount::is_summable(&decoded(vec![assistant(1), assistant(2)])));
    assert!(TokenCount::is_summable(&decoded(vec![
        assistant(1),
        entry(Some("user"), too_much())
    ])));
    assert!(!TokenCount::is_summable(&decoded(vec![
        entry(Some("assistant"), too_much()),
        assistant(2)
    ])));
    assert!(!TokenCount::is_summable(&decoded(vec![
        assistant(2),
        entry(Some("assistant"), too_much())
    ])));
    let transcript = decoded(vec![assistant(1), entry(Some("user"), too_much())]);
    assert_eq!(count(transcript), 1);
}

#[test]
fn new_holds_the_count() {
    assert_eq!(*TokenCount::new(0), 0);
    assert_eq!(*TokenCount::new(123_456), 123_456);
    assert_eq!(*TokenCount::new(u64::MAX), u64::MAX);
}
