use renderfleet::fleet::collect_heartbeats;
use renderfleet::order::{lex_le_exec, sort_strings};
use renderfleet::scan::{has_image_extension_exec, list_job_images, list_outbox_jobs, DirEntryInfo};

fn entry(name: &str, is_dir: bool) -> DirEntryInfo {
    DirEntryInfo { name: name.to_string(), is_dir }
}

fn strings(items: &[&str]) -> Vec<String> {
    items.iter().map(|s| s.to_string()).collect()
}

#[test]
fn outbox_jobs_excludes_dot_entries_and_sorts() {
    let entries = vec![entry("b_job", true), entry(".DS_Store", true), entry("a_job", true)];
    assert_eq!(list_outbox_jobs(entries), strings(&["a_job", "b_job"]));
}

#[test]
fn outbox_jobs_keeps_directories_only() {
    let entries = vec![
        entry("done", true),
        entry("stray.txt", false),
        entry(".hidden", true),
        entry("also_done", true),
    ];
    assert_eq!(list_outbox_jobs(entries), strings(&["also_done", "done"]));
}

#[test]
fn outbox_jobs_of_empty_listing_is_empty() {
    assert_eq!(list_outbox_jobs(Vec::new()), Vec::<String>::new());
}

#[test]
fn job_images_filters_and_sorts_lexicographically() {
    let files = strings(&["take2.PNG", "take1.png", "notes.txt", "take10.jpg"]);
    assert_eq!(
        list_job_images("/r", "batch", files),
        strings(&[
            "/r/image/outbox/batch/take1.png",
            "/r/image/outbox/batch/take10.jpg",
            "/r/image/outbox/batch/take2.PNG",
        ])
    );
}

#[test]
fn image_extensions_match_case_insensitively() {
    assert!(has_image_extension_exec("a.png"));
    assert!(has_image_extension_exec("a.PNG"));
    assert!(has_image_extension_exec("a.JpEg"));
    assert!(has_image_extension_exec("a.jpg"));
    assert!(has_image_extension_exec("archive.tar.jpg"));
    assert!(!has_image_extension_exec("a.txt"));
    assert!(!has_image_extension_exec("a.pngx"));
    assert!(!has_image_extension_exec("png"));
    assert!(!has_image_extension_exec(".png"));
    assert!(!has_image_extension_exec("a."));
    assert!(!has_image_extension_exec(""));
}

#[test]
fn fleet_status_skips_unreadable_heartbeats() {
    let reads = vec![
        Some("worker-1 rendering".to_string()),
        None,
        Some("worker-2 idle".to_string()),
    ];
    assert_eq!(collect_heartbeats(reads), strings(&["worker-1 rendering", "worker-2 idle"]));
}

#[test]
fn fleet_status_of_unreadable_directory_is_empty() {
    assert_eq!(collect_heartbeats(Vec::new()), Vec::<String>::new());
}

#[test]
fn sorting_keeps_duplicates_and_orders_by_code_point() {
    assert_eq!(sort_strings(strings(&["b", "a", "b", ""])), strings(&["", "a", "b", "b"]));
    assert_eq!(
        sort_strings(strings(&["Z", "a", "10", "2"])),
        strings(&["10", "2", "Z", "a"])
    );
}

#[test]
fn lexicographic_comparison_is_by_code_point() {
    assert!(lex_le_exec("", "a"));
    assert!(lex_le_exec("a", "a"));
    assert!(lex_le_exec("a", "ab"));
    assert!(!lex_le_exec("ab", "a"));
    assert!(lex_le_exec("take1.png", "take10.jpg"));
    assert!(lex_le_exec("take10.jpg", "take2.PNG"));
    assert!(!lex_le_exec("a", "Z"));
}
