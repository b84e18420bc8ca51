use owo_colors::OwoColorize;
use sable::cache::module_specifier_to_path_buf;
use sable::diff::{PrettyDiffBuilder, PrettyDiffBuilderConfig};
use sable::format::{format_file, formatter_of, FormatOptions, Formatter};
use sable::promise_tracker::{PromiseEvent, PromiseMetricsSummaryTracker};
use sable::specifier::{resolve_import, resolve_main_module, ResolveError};
use sable::timers::TimerQueue;
use sable::web::{op_encoding_normalize_label, storage_has_room, utf8_text_start, STORAGE_SIZE_LIMIT};

fn lines(v: &[&str]) -> Vec<String> {
    v.iter().map(|s| s.to_string()).collect()
}

fn config() -> PrettyDiffBuilderConfig {
    PrettyDiffBuilderConfig { lines_before_diff: 2, lines_after_diff: 2, print_first_and_last_lines: true }
}

#[test]
fn diff_prints_context_and_changes() {
    let mut b = PrettyDiffBuilder::new(lines(&["a", "b", "c"]), lines(&["a", "B", "c"]), config());
    b.process_change(1, 2, 1, 2);
    assert_eq!(b.positions(), (2, 2));
    let out = b.finish();
    let expected = format!(
        "{}\n{}\n{}\n{}\n",
        " a".bright_black(),
        "-b".red().bold(),
        "+B".green().bold(),
        " c".bright_black()
    );
    assert_eq!(out, expected);
}

#[test]
fn diff_splits_distant_changes_into_groups() {
    let before = lines(&["1", "2", "3", "4", "5", "6", "7", "8", "9", "10"]);
    let mut after = before.clone();
    after[0] = "one".to_string();
    after[9] = "ten".to_string();
    let mut b = PrettyDiffBuilder::new(before, after, config());
    b.process_change(0, 1, 0, 1);
    b.process_change(9, 10, 9, 10);
    let out = b.finish();
    let ctx = |s: &str| format!("{}\n", format!(" {s}").bright_black());
    let expected = format!(
        "{}\n{}\n{}{}{}{}{}\n{}\n",
        "-1".red().bold(),
        "+one".green().bold(),
        ctx("2"),
        ctx("3"),
        ctx("8"),
        ctx("9"),
        "-10".red().bold(),
        "+ten".green().bold()
    );
    assert_eq!(out, expected);
}

#[test]
fn diff_of_equal_texts_is_empty() {
    let b = PrettyDiffBuilder::new(lines(&["x"]), lines(&["x"]), config());
    assert_eq!(b.line_counts(), (1, 1));
    assert_eq!(b.finish(), "");
}

#[test]
fn formatter_dispatch_by_extension() {
    assert_eq!(formatter_of("ts"), Some(Formatter::TypeScript));
    assert_eq!(formatter_of("jsx"), Some(Formatter::TypeScript));
    assert_eq!(formatter_of("jsonc"), Some(Formatter::Json));
    assert_eq!(formatter_of("markdown"), Some(Formatter::Markdown));
    assert_eq!(formatter_of("rs"), None);
    assert_eq!(format_file("a.rs", "rs", "fn  main(){}").ok(), Some(None));
    let options = FormatOptions::new(true, "**/*.ts".to_string());
    assert!(options.check);
    assert_eq!(options.glob, "**/*.ts");
}

#[test]
fn formatters_change_unformatted_text() {
    let ts = format_file("a.ts", "ts", "let   x=1").ok().unwrap();
    assert_eq!(ts, Some("let x = 1;\n".to_string()));
    assert_eq!(format_file("a.ts", "ts", "let x = 1;\n").ok(), Some(None));
    let json = format_file("a.json", "json", "{\"a\":1}").ok().unwrap();
    assert!(json.is_some());
    assert!(json.unwrap().contains("\"a\": 1"));
    let md = format_file("a.md", "md", "#   Title").ok().unwrap();
    assert_eq!(md, Some("# Title\n".to_string()));
    assert!(format_file("a.ts", "ts", "let = ;").is_err());
}

#[test]
fn encoding_labels_normalize() {
    assert_eq!(op_encoding_normalize_label("UTF8").ok(), Some("utf-8".to_string()));
    assert_eq!(op_encoding_normalize_label(" latin1 ").ok(), Some("windows-1252".to_string()));
    let err = op_encoding_normalize_label("nope").err().unwrap();
    assert_eq!(err, "The encoding label provided ('nope') is invalid.");
    assert!(op_encoding_normalize_label("replacement").is_err());
}

#[test]
fn utf8_bom_is_skipped_unless_kept() {
    let with_bom = [0xef, 0xbb, 0xbf, b'a'];
    assert_eq!(utf8_text_start(&with_bom, false), 3);
    assert_eq!(utf8_text_start(&with_bom, true), 0);
    assert_eq!(utf8_text_start(b"abc", false), 0);
    assert_eq!(utf8_text_start(&[0xef, 0xbb], false), 0);
}

#[test]
fn storage_quota() {
    assert_eq!(STORAGE_SIZE_LIMIT, 5 * 1024 * 1024);
    assert!(storage_has_room(0, 3, 5));
    assert!(!storage_has_room(STORAGE_SIZE_LIMIT - 8, 3, 5));
    assert!(storage_has_room(STORAGE_SIZE_LIMIT - 9, 3, 5));
    assert!(!storage_has_room(usize::MAX, 1, 1));
}

#[test]
fn promise_hook_events_count_for_the_current_test() {
    let mut t = PromiseMetricsSummaryTracker::default();
    t.track("a".to_string());
    t.record(PromiseEvent::Init);
    t.record(PromiseEvent::Init);
    t.record(PromiseEvent::Resolve);
    t.record(PromiseEvent::Other);
    t.track("b".to_string());
    t.record(PromiseEvent::Init);
    t.record(PromiseEvent::Resolve);
    assert_eq!(t.first_with_pending_promises(), Some(0));
    t.track("a".to_string());
    t.record(PromiseEvent::Resolve);
    assert_eq!(t.first_with_pending_promises(), None);
    assert_eq!(t.per_test()[0].promises_initialized, 2);
    assert_eq!(t.per_test()[0].promises_resolved, 2);
}

#[test]
fn relative_cache_path_and_entry_module() {
    let m = resolve_import("https://deno.land/std/mod.ts", "", "file:///").ok().unwrap();
    assert_eq!(module_specifier_to_path_buf(&m), "https/deno.land_/std_/mod.ts_f");
    let main = resolve_main_module("src/main.ts", "/home/u/project").ok().unwrap();
    assert_eq!(main.as_str(), "file:///home/u/project/src/main.ts");
    let hash = resolve_main_module("my#file.ts", "/home/u/").ok().unwrap();
    assert_eq!(hash.as_str(), "file:///home/u/my%23file.ts");
    let dots = resolve_main_module("../x/./y.ts", "/home/u/project").ok().unwrap();
    assert_eq!(dots.as_str(), "file:///home/u/x/y.ts");
    let absolute = resolve_main_module("/etc/a.js", "/home").ok().unwrap();
    assert_eq!(absolute.as_str(), "file:///etc/a.js");
    assert!(matches!(resolve_main_module("a.js", "relative/dir"), Err(ResolveError::InvalidPath)));
    let url = resolve_main_module("https://x.test/a.js", "/home").ok().unwrap();
    assert_eq!(url.as_str(), "https://x.test/a.js");
}

#[test]
fn timers_fire_earliest_first_and_skip_cleared_ones() {
    let mut q = TimerQueue::new();
    assert_eq!(q.next_due(), None);
    assert!(!q.create_timer(1000, 50, 1));
    assert!(q.create_timer(1000, 10, 2));
    assert!(!q.create_timer(1001, 100, 3));
    assert!(q.create_timer(1002, -5, 4));
    assert_eq!(q.len(), 4);
    assert_eq!(q.next_due(), Some((4, 1002)));
    assert_eq!(q.fire(), Some(4));
    assert_eq!(q.next_due(), Some((2, 1010)));
    q.cancel(2);
    assert_eq!(q.next_due(), Some((1, 1050)));
    assert_eq!(q.len(), 2);
    assert_eq!(q.fire(), Some(1));
    q.cancel(3);
    assert!(!q.create_timer(1200, 0, 5) || q.len() == 2);
    assert_eq!(q.next_due(), Some((5, 1200)));
    assert_eq!(q.fire(), Some(5));
    assert_eq!(q.next_due(), None);
    assert_eq!(q.len(), 0);
    assert_eq!(q.fire(), None);
}

#[test]
fn timers_due_together_leave_in_queue_order() {
    let mut q = TimerQueue::new();
    q.create_timer(500, 20, 7);
    q.create_timer(500, 20, 8);
    assert_eq!(q.next_due(), Some((7, 520)));
    assert_eq!(q.fire(), Some(7));
    q.cancel(8);
    q.create_timer(500, 20, 9);
    assert_eq!(q.next_due(), Some((9, 520)));
    assert_eq!(q.fire(), Some(9));
}
