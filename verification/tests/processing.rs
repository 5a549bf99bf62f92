use import_converter::batch::{apply_copy_outcome, apply_reencode_outcome, transcoder_args};
use import_converter::entry::{build_file_entry, DestinationConfig, FileEntry, MaskEntry};
use import_converter::resolve::DateSource;
use import_converter::summary::summarize;
use import_converter::timestamp::Timestamp;

fn ts() -> Timestamp {
    Timestamp { year: 2023, month: 7, day: 4, hour: 10, minute: 15, second: 0 }
}

fn cfg() -> DestinationConfig {
    DestinationConfig {
        destination_root: String::from("/dest"),
        path_format: String::from("%Y/%m"),
        filename_prefix: String::from("%Y%m%d_"),
        new_file_extension: String::from("m4v"),
    }
}

fn entry(source: &str, len: u64, reencode: bool) -> FileEntry {
    let mask = MaskEntry { extension: String::from("*"), reencode };
    build_file_entry(source, len, &mask, ts(), DateSource::Exif, &cfg()).unwrap()
}

#[test]
fn transcoder_args_split() {
    let args = transcoder_args("in.mov", "out.m4v", "-e x264  -q 20");
    assert_eq!(args, vec!["-i", "in.mov", "-o", "out.m4v", "-e", "x264", "-q", "20"]);
}

#[test]
fn transcoder_args_empty_and_odd_whitespace() {
    let args = transcoder_args("a", "b", "");
    assert_eq!(args, vec!["-i", "a", "-o", "b"]);
    let args = transcoder_args("a", "b", " \t--preset\nfast \r ");
    assert_eq!(args, vec!["-i", "a", "-o", "b", "--preset", "fast"]);
}

#[test]
fn copy_success_records_source_length() {
    let mut e = entry("photos/a.jpg", 4096, false);
    // a successful copy reports exactly the source's byte count
    apply_copy_outcome(&mut e, Some(4096));
    assert!(e.success);
    assert_eq!(e.len_after_action, 4096);
    assert_eq!(e.len, 4096);
}

#[test]
fn copy_failure_leaves_length_zero() {
    let mut e = entry("photos/a.jpg", 4096, false);
    apply_copy_outcome(&mut e, None);
    assert!(!e.success);
    assert_eq!(e.len_after_action, 0);
}

#[test]
fn transcoder_failure_leaves_entry_failed() {
    let mut failed = entry("clips/a.mov", 5000, true);
    apply_reencode_outcome(&mut failed, false, 777);
    assert!(!failed.success);
    assert_eq!(failed.len_after_action, 0);

    // the run proceeds: the next entry is still processed normally
    let mut next = entry("clips/b.mov", 6000, true);
    apply_reencode_outcome(&mut next, true, 1234);
    assert!(next.success);
    assert_eq!(next.len_after_action, 1234);

    let batch = vec![failed, next];
    let s = summarize(&batch);
    assert_eq!(s.total, 2);
    assert_eq!(s.success_count, 1);
    assert_eq!(s.reencode_fail, 1);
    assert_eq!(s.reencode_success, 1);
}

#[test]
fn dry_run_plan_leaves_entries_untouched() {
    // a dry run builds the plan and attempts no action
    let batch = vec![
        entry("photos/a.jpg", 100, false),
        entry("clips/b.mov", 200, true),
    ];
    for e in &batch {
        assert!(!e.success);
        assert_eq!(e.len_after_action, 0);
    }
    let s = summarize(&batch);
    assert_eq!(s.success_count, 0);
    assert_eq!(s.len_sum_after, 0);
    assert_eq!(s.len_sum, 300);
}

#[test]
fn summary_totals_partition() {
    let mut a = entry("a.jpg", 10, false);
    let mut b = entry("b.jpg", 20, false);
    let mut c = entry("c.mov", 40, true);
    let mut d = entry("d.mov", 80, true);
    apply_copy_outcome(&mut a, Some(10));
    apply_copy_outcome(&mut b, None);
    apply_reencode_outcome(&mut c, true, 33);
    apply_reencode_outcome(&mut d, false, 0);
    let batch = vec![a, b, c, d];
    let s = summarize(&batch);
    assert_eq!(s.total, 4);
    assert_eq!(s.copy_success, 1);
    assert_eq!(s.copy_fail, 1);
    assert_eq!(s.reencode_success, 1);
    assert_eq!(s.reencode_fail, 1);
    assert_eq!(s.copy_success + s.reencode_success, s.success_count);
    assert_eq!(
        s.copy_success + s.reencode_success + s.copy_fail + s.reencode_fail,
        s.total
    );
    assert_eq!(s.len_sum, 10 + 20 + 40 + 80);
    assert_eq!(s.len_sum_after, 10 + 33);
}
