use screenshot_triage::filter::is_candidate;
use screenshot_triage::pipeline::plan_run;
use screenshot_triage::scan::{count_unreadable, list_screenshots, scan, FsEntry, SkipReason};

fn entry(path: &str, name: &str, size: Option<u64>, is_file: bool) -> FsEntry {
    FsEntry { path: path.to_string(), name: name.to_string(), size, is_file }
}

#[test]
fn candidate_requires_png_and_marker() {
    assert!(is_candidate("Screenshot 2024-01-01 at 10.00.00.png"));
    assert!(is_candidate("Screen Shot 2024-01-01.png"));
    assert!(is_candidate("Screenshot.PNG"));
    assert!(is_candidate("My Screenshot final.PnG"));
    assert!(!is_candidate("vacation.jpg"));
    assert!(!is_candidate("Screenshot.txt"));
    assert!(!is_candidate("holiday.png"));
    assert!(!is_candidate("screenshot 1.png"));
    assert!(!is_candidate("png"));
    assert!(!is_candidate(""));
}

#[test]
fn scan_mixed_folder_yields_one_candidate() {
    let entries = vec![
        entry(
            "/shots/Screenshot 2024-01-01 at 10.00.00.png",
            "Screenshot 2024-01-01 at 10.00.00.png",
            Some(2 * 1024 * 1024),
            true,
        ),
        entry("/shots/vacation.jpg", "vacation.jpg", Some(3 * 1024 * 1024), true),
    ];
    let r = scan(&entries);
    assert_eq!(r.candidates.len(), 1);
    assert_eq!(r.skipped.len(), 0);
    assert_eq!(r.candidates[0].name, "Screenshot 2024-01-01 at 10.00.00.png");
    assert_eq!(r.candidates[0].path, "/shots/Screenshot 2024-01-01 at 10.00.00.png");
    assert_eq!(r.candidates[0].size, 2 * 1024 * 1024);

    let plan = plan_run(&entries, 4);
    assert_eq!(plan.summary, 1);
    assert_eq!(plan.pool.pending.len(), 1);
    assert_eq!(plan.skipped.len(), 0);
}

#[test]
fn scan_oversize_file_is_skipped_not_dispatched() {
    let entries = vec![entry("/shots/Screenshot Big.png", "Screenshot Big.png", Some(6291456), true)];
    let r = scan(&entries);
    assert_eq!(r.candidates.len(), 0);
    assert_eq!(r.skipped.len(), 1);
    assert_eq!(r.skipped[0].name, "Screenshot Big.png");
    assert_eq!(r.skipped[0].size, 6291456);
    assert_eq!(r.skipped[0].reason, SkipReason::ExceedsSizeLimit);
    assert_eq!(r.skipped[0].reason.message(), "exceeds 5MB limit");

    let plan = plan_run(&entries, 4);
    assert_eq!(plan.summary, 0);
}

#[test]
fn scan_boundary_size_is_still_accepted() {
    let entries = vec![
        entry("/s/Screenshot at.png", "Screenshot at.png", Some(5 * 1024 * 1024), true),
        entry("/s/Screenshot over.png", "Screenshot over.png", Some(5 * 1024 * 1024 + 1), true),
    ];
    let r = scan(&entries);
    assert_eq!(r.candidates.len(), 1);
    assert_eq!(r.candidates[0].name, "Screenshot at.png");
    assert_eq!(r.skipped.len(), 1);
    assert_eq!(r.skipped[0].name, "Screenshot over.png");
}

#[test]
fn scan_ignores_directories_and_unreadable_metadata() {
    let entries = vec![
        entry("/s/Screenshot dir.png", "Screenshot dir.png", Some(100), false),
        entry("/s/Screenshot unknown.png", "Screenshot unknown.png", None, true),
        entry("/s/Screenshot ok.png", "Screenshot ok.png", Some(100), true),
    ];
    let r = scan(&entries);
    assert_eq!(r.candidates.len(), 1);
    assert_eq!(r.candidates[0].name, "Screenshot ok.png");
    assert_eq!(r.skipped.len(), 0);
}

#[test]
fn unreadable_screenshot_entries_are_counted() {
    let entries = vec![
        entry("/s/Screenshot a.png", "Screenshot a.png", None, true),
        entry("/s/Screenshot b.png", "Screenshot b.png", Some(10), true),
        entry("/s/notes.txt", "notes.txt", None, true),
        entry("/s/Screenshot d.png", "Screenshot d.png", None, false),
        entry("/s/Screenshot c.png", "Screenshot c.png", None, true),
    ];
    assert_eq!(count_unreadable(&entries), 2);
}

#[test]
fn scan_empty_folder_is_empty() {
    let entries: Vec<FsEntry> = Vec::new();
    let r = scan(&entries);
    assert_eq!(r.candidates.len(), 0);
    assert_eq!(r.skipped.len(), 0);
}

#[test]
fn listing_is_sorted_by_name_and_flags_validity() {
    let entries = vec![
        entry("/s/Screenshot b.png", "Screenshot b.png", Some(6291456), true),
        entry("/s/Screenshot a.png", "Screenshot a.png", Some(10), true),
        entry("/s/notes.txt", "notes.txt", Some(5), true),
        entry("/s/Screenshot c.png", "Screenshot c.png", None, true),
    ];
    let rows = list_screenshots(&entries);
    assert_eq!(rows.len(), 3);
    assert_eq!(rows[0].name, "Screenshot a.png");
    assert_eq!(rows[1].name, "Screenshot b.png");
    assert_eq!(rows[2].name, "Screenshot c.png");
    assert!(rows[0].is_valid);
    assert!(!rows[1].is_valid);
    assert_eq!(rows[2].size, 0);
    assert!(rows[2].is_valid);
    assert_eq!(rows[0].path, "/s/Screenshot a.png");
}

#[test]
fn listing_twice_returns_the_same_ordered_rows() {
    let entries = vec![
        entry("/s/Screenshot z.png", "Screenshot z.png", Some(3), true),
        entry("/s/Screenshot m.png", "Screenshot m.png", Some(2), true),
        entry("/s/Screenshot a.png", "Screenshot a.png", Some(1), true),
    ];
    let first = list_screenshots(&entries);
    let second = list_screenshots(&entries);
    assert_eq!(first.len(), second.len());
    for (a, b) in first.iter().zip(second.iter()) {
        assert_eq!(a.name, b.name);
        assert_eq!(a.path, b.path);
        assert_eq!(a.size, b.size);
        assert_eq!(a.is_valid, b.is_valid);
    }
}
