use transport::api::FileEntry;
use transport::listing::sort_entries;

fn entry(name: &str, is_dir: bool) -> FileEntry {
    FileEntry { name: name.to_string(), is_dir, size: 0, modified: 0 }
}

fn names(entries: &[FileEntry]) -> Vec<&str> {
    entries.iter().map(|e| e.name.as_str()).collect()
}

#[test]
fn directories_come_before_files() {
    let sorted = sort_entries(vec![
        entry("b.txt", false),
        entry("zebra", true),
        entry("a.txt", false),
        entry("apple", true),
    ]);
    assert_eq!(names(&sorted), vec!["apple", "zebra", "a.txt", "b.txt"]);
}

#[test]
fn names_are_ordered_case_insensitively() {
    // Byte order alone would put the capitalised names first.
    let sorted = sort_entries(vec![
        entry("Banana.txt", false),
        entry("apple.txt", false),
        entry("Cherry.txt", false),
    ]);
    assert_eq!(names(&sorted), vec!["apple.txt", "Banana.txt", "Cherry.txt"]);
}

#[test]
fn shorter_prefix_sorts_first() {
    let sorted = sort_entries(vec![entry("abc", false), entry("ab", false)]);
    assert_eq!(names(&sorted), vec!["ab", "abc"]);
}

#[test]
fn sorting_keeps_every_row() {
    let sorted = sort_entries(vec![
        entry("same.txt", false),
        entry("same.txt", false),
        entry("other.txt", false),
    ]);
    assert_eq!(sorted.len(), 3);
    assert_eq!(names(&sorted), vec!["other.txt", "same.txt", "same.txt"]);
}

#[test]
fn empty_listing_stays_empty() {
    let sorted = sort_entries(Vec::new());
    assert!(sorted.is_empty());
}
