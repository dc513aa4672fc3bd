use mm2::json::Member;
use mm2::log::entry::LogEntry;
use mm2::log::status::Status;
use mm2::log::tag::{Tag, TagParam};
use mm2::log::{ChunkAction, Finished, LiveStatus, LogState, WriteOutcome, TAIL_LENGTH};
use std::collections::VecDeque;

fn dashboard_len(log: &LogState) -> usize {
    log.with_dashboard(|dashboard: &[LiveStatus]| dashboard.len())
}

fn tail_lines(log: &LogState) -> Vec<String> {
    log.with_tail(|tail: &VecDeque<LogEntry>| tail.iter().map(|entry| entry.line.clone()).collect())
}

#[test]
fn test_status() {
    let mut log = LogState::in_memory();

    log.with_dashboard(|dashboard: &[LiveStatus]| assert_eq!(dashboard.len(), 0));

    let mut handle = log.status_handle();
    for n in 1..=3 {
        handle.status(&mut log, &[&"tag1", &"tag2"], &format!("line {}", n));

        log.with_dashboard(|dashboard: &[LiveStatus]| {
            assert_eq!(dashboard.len(), 1);
            let status = &dashboard[0].status;
            assert!(status.tags.iter().any(|tag| tag.key == "tag1"));
            assert!(status.tags.iter().any(|tag| tag.key == "tag2"));
            assert_eq!(status.tags.len(), 2);
            assert_eq!(status.line, format!("line {}", n));
        });
    }
    handle.finish(&mut log);

    log.with_dashboard(|dashboard: &[LiveStatus]| assert_eq!(dashboard.len(), 0)); // The status was dumped into the log.
    log.with_tail(|tail: &VecDeque<LogEntry>| {
        assert_eq!(tail.len(), 1);
        assert_eq!(tail[0].line, "line 3");
        assert!(tail[0].trail.iter().any(|status| status.line == "line 2"));
        assert!(tail[0].trail.iter().any(|status| status.line == "line 1"));

        assert!(tail[0].tags.iter().any(|tag| tag.key == "tag1"));
        assert!(tail[0].tags.iter().any(|tag| tag.key == "tag2"));
        assert_eq!(tail[0].tags.len(), 2);
    })
}

#[test]
fn trail_is_in_the_order_of_the_updates() {
    let mut log = LogState::in_memory();
    let mut handle = log.status(&[&"a"], "one");
    handle.status(&mut log, &[&"b"], "two");
    handle.append(&mut log, " and a half");
    handle.status(&mut log, &[], "three");
    log.with_dashboard(|dashboard: &[LiveStatus]| {
        assert_eq!(dashboard[0].status.line, "three");
        assert_eq!(dashboard[0].status.trail[1].line, "two and a half");
    });
    let finished = handle.finish_at(&mut log, 0);
    assert_eq!(
        finished,
        Some(Finished {
            chunk: "· 1970-01-01 00:00:00 [] three\n    two and a half\n    one\n".to_string(),
            warning: None,
        })
    );
    log.with_tail(|tail: &VecDeque<LogEntry>| {
        let trail = &tail[0].trail;
        assert_eq!(trail.len(), 2);
        assert_eq!(trail[0].line, "one");
        assert_eq!(trail[0].tags[0].key, "a");
        assert!(trail[0].trail.is_empty());
        assert_eq!(trail[1].line, "two and a half");
        assert_eq!(trail[1].tags[0].key, "b");
        assert_eq!(tail[0].time, 0);
        assert_eq!(tail[0].emotion, "");
    });
}

#[test]
fn operations_do_not_disturb_each_other() {
    let mut log = LogState::in_memory();
    let first = log.status(&[], "first");
    let mut second = log.status(&[], "second");
    let mut third = log.status(&[], "third");
    assert_eq!(dashboard_len(&log), 3);
    second.append(&mut log, "!");
    first.finish(&mut log);
    // The last status takes the place of the one that left.
    let lines: Vec<String> = log.with_dashboard(|dashboard: &[LiveStatus]| {
        dashboard.iter().map(|live| live.status.line.clone()).collect()
    });
    assert_eq!(lines, vec!["third".to_string(), "second!".to_string()]);
    let fourth = log.status(&[], "fourth");
    third.append(&mut log, "?");
    fourth.finish(&mut log);
    third.finish(&mut log);
    second.finish(&mut log);
    assert_eq!(dashboard_len(&log), 0);
    assert_eq!(tail_lines(&log), vec!["first", "fourth", "third?", "second!"]);
}

#[test]
fn handle_without_a_status_leaves_no_trace() {
    let mut log = LogState::in_memory();
    let mut handle = log.status_handle();
    handle.append(&mut log, "lost");
    assert_eq!(dashboard_len(&log), 0);
    assert_eq!(handle.finish(&mut log), None);
    assert!(tail_lines(&log).is_empty());
}

#[test]
fn missing_status_is_logged_all_the_same() {
    let mut elsewhere = LogState::in_memory();
    let first = elsewhere.status(&[], "busy");
    let mut second = elsewhere.status(&[&"tag"], "busy");
    let mut log = LogState::in_memory();
    let here = log.status(&[&"tag"], "busy");
    // The dashboard has an equal status, but not this one.
    second.status(&mut log, &[&"tag"], "still busy");
    second.append(&mut log, "!");
    assert_eq!(
        second.finish_at(&mut log, 0),
        Some(Finished {
            chunk: "· 1970-01-01 00:00:00 [tag] still busy!\n    busy\n".to_string(),
            warning: Some(
                "log] Warning, a finished StatusHandle was missing from the dashboard.".to_string()
            ),
        })
    );
    log.with_dashboard(|dashboard: &[LiveStatus]| {
        assert_eq!(dashboard.len(), 1);
        assert_eq!(dashboard[0].status.line, "busy");
        assert!(dashboard[0].status.trail.is_empty());
    });
    assert_eq!(tail_lines(&log), vec!["still busy!"]);
    assert_eq!(here.finish_at(&mut log, 0).unwrap().warning, None);
    assert_eq!(tail_lines(&log), vec!["still busy!", "busy"]);
    assert_eq!(first.finish(&mut elsewhere).unwrap().warning, None);
}

#[test]
fn clock_outside_the_calendar_is_refused() {
    let mut log = LogState::in_memory();
    assert_eq!(log.log_reading(8_210_266_876_800_000, 0, "", &[&"tag"], "x"), None);
    assert!(tail_lines(&log).is_empty());
    assert_eq!(
        log.log_reading(0, 60, "", &[&"tag"], "x"),
        Some("· 1970-01-01 00:01:00 [tag] x\n".to_string())
    );
    assert_eq!(tail_lines(&log), vec!["x"]);
}

#[test]
fn only_the_latest_entries_are_kept() {
    let mut log = LogState::in_memory();
    for n in 0..TAIL_LENGTH + 3 {
        log.log_at(0, 0, "", &[], &format!("{}", n));
        let expected: Vec<String> =
            (n.saturating_sub(TAIL_LENGTH - 1)..=n).map(|n| format!("{}", n)).collect();
        assert_eq!(tail_lines(&log), expected);
    }
}

#[test]
fn entry_is_written_with_time_and_tags() {
    let mut log = LogState::in_memory();
    let chunk = log.log_at(1_000_000_000_000, 0, "☺", &[&"swap", &"btc"], "done");
    assert_eq!(chunk, "☺ 2001-09-09 01:46:40 [swap btc] done\n");
    let chunk = log.log_at(1_000_000_000_999, 3600, "", &[&"swap"], "done");
    assert_eq!(chunk, "· 2001-09-09 02:46:40 [swap] done\n");
    // A count beyond the signed ones lies before the epoch.
    let chunk = log.log_at(u64::MAX, 0, "", &[], "x");
    assert_eq!(chunk, "· 1969-12-31 23:59:59 [] x\n");
    // The first and the last moment of the calendar.
    let chunk = log.log_at(8_210_266_876_799_999, -86_399, "", &[], "x");
    assert_eq!(chunk, "· +262142-12-31 00:00:00 [] x\n");
    log.log_at(8_210_266_876_799_999, 86_399, "", &[], "x");
    log.log_at(-8_334_601_228_800_000i64 as u64, -86_399, "", &[], "x");
}

#[test]
fn calendar_has_an_end() {
    assert!(mm2::log::time::is_dated(8_210_266_876_799_999));
    assert!(!mm2::log::time::is_dated(8_210_266_876_800_000));
    assert!(mm2::log::time::is_dated(-8_334_601_228_800_000i64 as u64));
    assert!(!mm2::log::time::is_dated(-8_334_601_228_800_001i64 as u64));
    assert!(chrono::DateTime::from_timestamp_millis(8_210_266_876_800_000).is_none());
    assert!(chrono::DateTime::from_timestamp_millis(-8_334_601_228_800_001).is_none());
}

#[test]
fn log_stamps_the_current_time() {
    let mut log = LogState::in_memory();
    let before = gstuff::now_ms();
    let chunk = log.log("", &[&"tag"], "now").unwrap();
    let after = gstuff::now_ms();
    assert!(chunk.starts_with("· 2"));
    assert!(chunk.ends_with(" [tag] now\n"));
    log.with_tail(|tail: &VecDeque<LogEntry>| {
        assert!(before <= tail[0].time && tail[0].time <= after);
        let mut again = String::new();
        tail[0].format(&mut again);
        assert_eq!(again, chunk);
        let mut stamped = "> ".to_string();
        tail[0].format_stamped("today", &mut stamped);
        assert_eq!(stamped, "> · today [tag] now\n");
    });
}

struct Pair(&'static str, u32);

impl<'a> TagParam<'a> for Pair {
    fn key(&self) -> String {
        self.0.to_string()
    }
    fn val(&self) -> Option<String> {
        Some(self.1.to_string())
    }
}

#[test]
fn tags_may_have_values() {
    let mut log = LogState::in_memory();
    let chunk = log.log_at(0, 0, "", &[&Pair("height", 7), &"plain"], "x");
    assert_eq!(chunk, "· 1970-01-01 00:00:00 [height plain] x\n");
    log.with_tail(|tail: &VecDeque<LogEntry>| {
        assert_eq!(tail[0].tags[0].val, Some("7".to_string()));
        assert_eq!(tail[0].tags[1].val, None);
    });
}

#[test]
fn default_entry_is_empty() {
    let entry = LogEntry::default();
    assert_eq!(entry.time, 0);
    assert!(entry.emotion.is_empty() && entry.tags.is_empty() && entry.line.is_empty() && entry.trail.is_empty());
    let entry = LogEntry {
        tags: vec![Tag { key: "k".to_string(), val: None }],
        trail: vec![Status { tags: vec![], line: "was".to_string(), trail: vec![] }],
        ..entry
    };
    let mut text = String::new();
    entry.format_at(0, &mut text);
    assert_eq!(text, "· 1970-01-01 00:00:00 [k] \n    was\n");
}

fn conf(text: &str) -> serde_json::Value {
    serde_json::from_str(text).unwrap()
}

#[test]
fn configuration_names_the_log_file() {
    let log = LogState::mm(&conf("{\"log\": \"mm2.log\"}"));
    assert!(matches!(log.chunk2log(), ChunkAction::Write(path) if path == "mm2.log"));
    assert_eq!(dashboard_len(&log), 0);
    assert!(tail_lines(&log).is_empty());
    assert!(matches!(LogState::mm(&conf("{\"log\": null}")).chunk2log(), ChunkAction::Print));
    assert!(matches!(LogState::mm(&conf("{}")).chunk2log(), ChunkAction::Print));
    assert!(matches!(LogState::in_memory().chunk2log(), ChunkAction::Print));
    assert!(LogState::try_mm(&conf("{\"log\": \"x\"}")).is_some());
    assert!(LogState::try_mm(&conf("{}")).is_some());
    for unusable in ["{\"log\": 1}", "{\"log\": true}", "{\"log\": []}", "{\"log\": {}}"] {
        assert!(LogState::try_mm(&conf(unusable)).is_none());
    }
    let log = LogState::for_member(Member::Text("a.log".to_string()));
    assert!(matches!(log.chunk2log(), ChunkAction::Write(path) if path == "a.log"));
}

#[test]
fn failed_writes_are_printed() {
    assert!(matches!(LogState::chunk_written(WriteOutcome::Written), ChunkAction::Done));
    match LogState::chunk_written(WriteOutcome::WriteFailed("disk full".to_string())) {
        ChunkAction::PrintAndComplain(text) => {
            assert_eq!(text, "log] Can't write to the log: disk full")
        }
        _ => panic!("the chunk is lost"),
    }
    match LogState::chunk_written(WriteOutcome::LockFailed("poisoned".to_string())) {
        ChunkAction::PrintAndComplain(text) => assert_eq!(text, "log] Can't lock the log: poisoned"),
        _ => panic!("the chunk is lost"),
    }
}
