use dirserver::coalescer::EventCoalescer;
use dirserver::detector::DirServer;
use dirserver::events::{EventKind, ObservedEvent, PathObservation, RawEvent};
use dirserver::fingerprint::hex_upper;
use dirserver::ledger::{decide_change, ChangeLedger};
use dirserver::paths::{path_is_eligible, TrackedPath};

fn tp(segments: &[&str]) -> TrackedPath {
    TrackedPath { segments: segments.iter().map(|s| s.to_string()).collect() }
}

fn obs(segments: &[&str], is_file: bool, content: Option<&str>) -> PathObservation {
    PathObservation { path: tp(segments), is_file, content: content.map(|c| c.to_string()) }
}

fn event(kind: EventKind, observations: Vec<PathObservation>) -> ObservedEvent {
    ObservedEvent { kind, observations }
}

const HELLO_SHA256: &str = "2CF24DBA5FB0A30E26E83B2AC5B9E29E1B161E5C1FA7425E73043362938B9824";

#[test]
fn plain_file_is_eligible() {
    assert!(path_is_eligible(&tp(&["docs", "a.txt"]), true));
    assert!(path_is_eligible(&tp(&["a.txt"]), true));
}

#[test]
fn non_file_is_not_eligible() {
    assert!(!path_is_eligible(&tp(&["docs", "a.txt"]), false));
    assert!(!path_is_eligible(&tp(&["docs"]), false));
}

#[test]
fn empty_path_is_not_eligible() {
    assert!(!path_is_eligible(&tp(&[]), true));
}

#[test]
fn hidden_directory_is_not_eligible() {
    assert!(!path_is_eligible(&tp(&[".git", "x"]), true));
    assert!(!path_is_eligible(&tp(&["docs", ".cache", "a.txt"]), true));
}

#[test]
fn hidden_file_is_not_eligible() {
    assert!(!path_is_eligible(&tp(&[".gitignore"]), true));
}

#[test]
fn backup_file_is_not_eligible() {
    assert!(!path_is_eligible(&tp(&["foo~"]), true));
    assert!(!path_is_eligible(&tp(&["docs", "a.txt~"]), true));
}

#[test]
fn build_directory_is_not_eligible() {
    assert!(!path_is_eligible(&tp(&["target", "debug", "a.txt"]), true));
    assert!(!path_is_eligible(&tp(&["target"]), true));
}

#[test]
fn display_joins_segments() {
    assert_eq!(tp(&["a", "b", "c.txt"]).display(), "a/b/c.txt");
    assert_eq!(tp(&["c.txt"]).display(), "c.txt");
    assert_eq!(tp(&[]).display(), "");
}

#[test]
fn hex_upper_renders_bytes() {
    assert_eq!(hex_upper(&vec![0xBE, 0xEF]), "BEEF");
    assert_eq!(hex_upper(&vec![0x00, 0x0A]), "000A");
    assert_eq!(hex_upper(&vec![]), "");
}

#[test]
fn fingerprint_known_value() {
    let ds = DirServer::new().unwrap();
    assert_eq!(ds.hash_file("hello"), HELLO_SHA256);
}

#[test]
fn fingerprint_stable_on_unchanged_content() {
    let ds = DirServer::new().unwrap();
    assert_eq!(ds.hash_file("hello world"), ds.hash_file("hello world"));
    assert_eq!(ds.hash_file(""), ds.hash_file(""));
}

#[test]
fn fingerprint_differs_after_any_single_byte_change() {
    let ds = DirServer::new().unwrap();
    let original = "the quick brown fox";
    let base = ds.hash_file(original);
    for i in 0..original.len() {
        let mut bytes = original.as_bytes().to_vec();
        bytes[i] = bytes[i].wrapping_add(1);
        let mutated = String::from_utf8(bytes).unwrap();
        assert_ne!(ds.hash_file(&mutated), base, "byte {} flipped", i);
    }
}

#[test]
fn decide_change_on_lookup_outcomes() {
    let stored = "AA".to_string();
    assert!(decide_change(None, "AA"));
    assert!(decide_change(Some(&stored), "BB"));
    assert!(!decide_change(Some(&stored), "AA"));
}

#[test]
fn ledger_update_reports_change_exactly_when_new_or_different() {
    let mut ledger = ChangeLedger::new().unwrap();
    assert_eq!(ledger.record_update("a.txt", "F1"), Ok(true));
    assert_eq!(ledger.record_update("a.txt", "F1"), Ok(false));
    assert_eq!(ledger.record_update("a.txt", "F2"), Ok(true));
    assert_eq!(ledger.lookup("a.txt"), Ok(Some("F2".to_string())));
    assert_eq!(ledger.lookup("b.txt"), Ok(None));
}

#[test]
fn ledger_initial_keeps_first_recording() {
    let mut ledger = ChangeLedger::new().unwrap();
    assert_eq!(ledger.record_initial("a.txt", "F1"), Ok(()));
    assert_eq!(ledger.record_initial("a.txt", "F2"), Ok(()));
    assert_eq!(ledger.lookup("a.txt"), Ok(Some("F1".to_string())));
}

#[test]
fn baseline_scan_then_unmodified_event_is_no_change() {
    let mut ds = DirServer::new().unwrap();
    let entries = vec![obs(&["a.txt"], true, Some("hello"))];
    ds.load_files(&entries).unwrap();
    let batch = vec![event(EventKind::Create, vec![obs(&["a.txt"], true, Some("hello"))])];
    assert!(ds.process_event(&batch).is_none());
}

#[test]
fn baseline_scan_skips_unreadable_entries_without_aborting() {
    let mut ds = DirServer::new().unwrap();
    let entries = vec![
        obs(&["bad.txt"], true, None),
        obs(&["good.txt"], true, Some("g")),
    ];
    ds.load_files(&entries).unwrap();
    // The readable entry after the bad one was recorded by the scan.
    let good = vec![event(EventKind::ModifyData, vec![obs(&["good.txt"], true, Some("g"))])];
    assert!(ds.process_event(&good).is_none());
    // The unreadable one was not: its content arriving later is a change.
    let bad = vec![event(EventKind::ModifyData, vec![obs(&["bad.txt"], true, Some("data"))])];
    assert!(ds.process_event(&bad).is_some());
}

#[test]
fn scenario_overwrite_fires_once_then_identical_content_is_silent() {
    let mut ds = DirServer::new().unwrap();
    ds.load_files(&vec![obs(&["a.txt"], true, Some("hello"))]).unwrap();

    let modified = vec![event(EventKind::ModifyData, vec![obs(&["a.txt"], true, Some("hello!"))])];
    let hit = ds.process_event(&modified);
    assert!(hit.is_some());
    assert_eq!(hit.unwrap().segments, vec!["a.txt".to_string()]);

    let again = vec![event(EventKind::ModifyData, vec![obs(&["a.txt"], true, Some("hello!"))])];
    assert!(ds.process_event(&again).is_none());
}

#[test]
fn hidden_path_never_yields_a_change() {
    let mut ds = DirServer::new().unwrap();
    ds.load_files(&vec![obs(&["a.txt"], true, Some("hello"))]).unwrap();
    let created = vec![event(EventKind::Create, vec![obs(&[".git", "x"], true, Some("data"))])];
    assert!(ds.process_event(&created).is_none());
    let modified = vec![event(
        EventKind::ModifyData,
        vec![obs(&[".git", "x"], true, Some("other data"))],
    )];
    assert!(ds.process_event(&modified).is_none());
}

#[test]
fn backup_file_never_yields_a_change() {
    let mut ds = DirServer::new().unwrap();
    let batch = vec![event(EventKind::ModifyData, vec![obs(&["foo~"], true, Some("junk"))])];
    assert!(ds.process_event(&batch).is_none());
}

#[test]
fn unreadable_file_is_skipped() {
    let mut ds = DirServer::new().unwrap();
    let batch = vec![event(EventKind::ModifyData, vec![obs(&["a.txt"], true, None)])];
    assert!(ds.process_event(&batch).is_none());
}

#[test]
fn irrelevant_kinds_are_ignored_and_leave_the_ledger_alone() {
    let mut ds = DirServer::new().unwrap();
    let removed = vec![event(EventKind::Remove, vec![obs(&["a.txt"], true, Some("hello"))])];
    assert!(ds.process_event(&removed).is_none());
    let meta = vec![event(EventKind::ModifyMeta, vec![obs(&["a.txt"], true, Some("hello"))])];
    assert!(ds.process_event(&meta).is_none());
    // Nothing was recorded above, so the same content now arriving as a
    // data modification is a genuine (new) change.
    let data = vec![event(EventKind::ModifyData, vec![obs(&["a.txt"], true, Some("hello"))])];
    assert!(ds.process_event(&data).is_some());
}

#[test]
fn new_file_event_is_a_change() {
    let mut ds = DirServer::new().unwrap();
    let batch = vec![event(EventKind::Create, vec![obs(&["b.txt"], true, Some("fresh"))])];
    let hit = ds.process_event(&batch);
    assert!(hit.is_some());
    assert_eq!(hit.unwrap().segments, vec!["b.txt".to_string()]);
}

#[test]
fn first_genuine_change_in_batch_order_wins() {
    let mut ds = DirServer::new().unwrap();
    let batch = vec![
        event(EventKind::ModifyData, vec![obs(&[".git", "x"], true, Some("noise"))]),
        event(EventKind::ModifyData, vec![obs(&["one.txt"], true, Some("1"))]),
        event(EventKind::ModifyData, vec![obs(&["two.txt"], true, Some("2"))]),
    ];
    let first = ds.process_event(&batch).unwrap();
    assert_eq!(first.segments, vec!["one.txt".to_string()]);
    // one.txt is now recorded and unchanged; the next pass surfaces two.txt.
    let second = ds.process_event(&batch).unwrap();
    assert_eq!(second.segments, vec!["two.txt".to_string()]);
    // Everything recorded: the batch is silent from here on.
    assert!(ds.process_event(&batch).is_none());
}

#[test]
fn ineligible_observation_in_same_event_is_passed_over() {
    let mut ds = DirServer::new().unwrap();
    let batch = vec![event(
        EventKind::Create,
        vec![obs(&["foo~"], true, Some("junk")), obs(&["real.txt"], true, Some("content"))],
    )];
    let hit = ds.process_event(&batch).unwrap();
    assert_eq!(hit.segments, vec!["real.txt".to_string()]);
}

fn raw(kind: EventKind, segments: &[&str]) -> RawEvent {
    RawEvent { kind, paths: vec![tp(segments)] }
}

#[test]
fn coalescer_merges_a_burst_into_one_batch() {
    let mut c = EventCoalescer::new();
    c.on_event(0, raw(EventKind::Create, &["a.txt"]));
    c.on_event(50, raw(EventKind::ModifyData, &["a.txt"]));
    c.on_event(120, raw(EventKind::ModifyData, &["a.txt"]));
    // The window re-armed at 120 runs to 220: nothing flushes before that.
    assert!(c.poll(219).is_none());
    let batch = c.poll(220).unwrap();
    assert_eq!(batch.len(), 3);
    assert_eq!(batch[0].kind, EventKind::Create);
    assert_eq!(batch[2].paths[0].segments, vec!["a.txt".to_string()]);
    // Flushed once: a later poll has nothing more.
    assert!(c.poll(1000).is_none());
}

#[test]
fn coalescer_drops_irrelevant_events() {
    let mut c = EventCoalescer::new();
    c.on_event(0, raw(EventKind::Remove, &["a.txt"]));
    c.on_event(10, raw(EventKind::Rename, &["a.txt"]));
    c.on_event(20, raw(EventKind::ModifyMeta, &["a.txt"]));
    c.on_event(30, raw(EventKind::Other, &["a.txt"]));
    assert!(c.poll(10_000).is_none());
}

#[test]
fn coalescer_idle_polls_yield_nothing() {
    let mut c = EventCoalescer::new();
    assert!(c.poll(0).is_none());
    assert!(c.poll(10_000).is_none());
}

#[test]
fn coalescer_separate_bursts_yield_separate_batches() {
    let mut c = EventCoalescer::new();
    c.on_event(0, raw(EventKind::ModifyData, &["a.txt"]));
    let first = c.poll(100).unwrap();
    assert_eq!(first.len(), 1);
    c.on_event(500, raw(EventKind::ModifyData, &["b.txt"]));
    assert!(c.poll(599).is_none());
    let second = c.poll(600).unwrap();
    assert_eq!(second.len(), 1);
    assert_eq!(second[0].paths[0].segments, vec!["b.txt".to_string()]);
}
