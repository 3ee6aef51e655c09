use vooox::history::{format_timestamp, history_records, now_rfc3339, History, HistoryEntry, MAX_ENTRIES};

fn entry(text: &str) -> HistoryEntry {
    HistoryEntry {
        text: text.into(),
        timestamp: "2024-01-01T00:00:00Z".into(),
        model: "small".into(),
        language: "de".into(),
    }
}

fn stamped(text: &str, ts: &str) -> HistoryEntry {
    HistoryEntry { text: text.into(), timestamp: ts.into(), model: "small".into(), language: "de".into() }
}

#[test]
fn history_push_and_retrieve() {
    let mut h = History::load("/tmp/h.jsonl".to_string(), Vec::new());
    h.push(entry("Hallo Welt"));
    assert_eq!(h.len(), 1);
    assert_eq!(h.entries().next().unwrap().text, "Hallo Welt");
}

#[test]
fn history_max_entries_enforced() {
    let mut h = History::load("/tmp/h.jsonl".to_string(), Vec::new());
    for i in 0..55usize {
        h.push(entry(&format!("text {i}")));
    }
    assert_eq!(h.len(), MAX_ENTRIES);
    // oldest entries were dropped, last one survives
    assert_eq!(h.entries().last().unwrap().text, "text 54");
    assert_eq!(h.entries().next().unwrap().text, "text 5");
}

#[test]
fn reload_keeps_the_newest() {
    let read: Vec<HistoryEntry> = (0..60usize).map(|i| entry(&format!("t{i}"))).collect();
    let h = History::load("/x/history.jsonl".to_string(), read);
    assert_eq!(h.len(), MAX_ENTRIES);
    assert_eq!(h.entries().next().unwrap().text, "t10");
    assert_eq!(h.entries().nth(49).unwrap().text, "t59");
    assert_eq!(h.path(), "/x/history.jsonl");
    let two = History::load(String::new(), vec![entry("first"), entry("second")]);
    assert_eq!(two.len(), 2);
}

#[test]
fn remove_by_timestamp_keeps_order() {
    let mut h = History::load(String::new(), Vec::new());
    h.push(stamped("a", "1"));
    h.push(stamped("b", "2"));
    h.push(stamped("c", "1"));
    h.push(stamped("d", "3"));
    h.remove_by_timestamp("1");
    let texts: Vec<&str> = h.entries().map(|e| e.text.as_str()).collect();
    assert_eq!(texts, vec!["b", "d"]);
    h.remove_by_timestamp("9");
    assert_eq!(h.len(), 2);
}

#[test]
fn records_are_lines() {
    assert_eq!(history_records("{\"a\":1}\n{\"b\":2}\r\n\n"), vec!["{\"a\":1}", "{\"b\":2}", ""]);
    assert!(history_records("").is_empty());
}

#[test]
fn timestamps() {
    assert_eq!(format_timestamp(0), "1970-01-01T00:00:00Z");
    assert_eq!(format_timestamp(3661), "1970-01-01T01:01:01Z");
    assert_eq!(format_timestamp(31_536_000), "1971-01-01T00:00:00Z");
    // day 59 of 1970, a common year: the first of March
    assert_eq!(format_timestamp(59 * 86400 + 86399), "1970-03-01T23:59:59Z");
    // day 360 of 1970
    assert_eq!(format_timestamp(31_104_000), "1970-12-27T00:00:00Z");
    assert_eq!(format_timestamp(31_535_999), "1970-12-31T23:59:59Z");
    // leap days
    assert_eq!(format_timestamp(951_782_400), "2000-02-29T00:00:00Z");
    assert_eq!(format_timestamp(1_709_164_800), "2024-02-29T00:00:00Z");
    assert_eq!(format_timestamp(4_107_542_400), "2100-03-01T00:00:00Z");
    assert_eq!(format_timestamp(1_700_000_000), "2023-11-14T22:13:20Z");
    assert_eq!(format_timestamp(u64::MAX), "584554051223-11-09T07:00:15Z");
    let now = now_rfc3339();
    assert_eq!(now.len(), 20);
    assert!(now.ends_with('Z'));
}

use vooox::history::{empty_history_text, entry_time_label};

#[test]
fn history_window_texts() {
    assert_eq!(entry_time_label("2024-05-06T13:45:12Z"), "13:45");
    assert_eq!(entry_time_label("short"), "short");
    // byte 11 falls inside the two-byte 'ä': no slice
    assert_eq!(entry_time_label("2024-05-06äT13:45Z"), "2024-05-06äT13:45Z");
    // multibyte characters before the range shift the characters
    assert_eq!(entry_time_label("ä024-05-06T13:45:12Z"), "T13:4");
    assert_eq!(empty_history_text(), "Verlauf ist leer.");
}

#[test]
fn pushes_on_empty_history_keep_their_order() {
    let mut h = History::load("/tmp/h.jsonl".to_string(), Vec::new());
    h.push(entry("eins"));
    h.push(entry("zwei"));
    h.push(entry("drei"));
    let texts: Vec<&str> = h.entries().map(|e| e.text.as_str()).collect();
    assert_eq!(texts, vec!["eins", "zwei", "drei"]);
    assert_eq!(h.len(), 3);
}
