use yt_play::Song;
use yt_play::contains_str;
use yt_play::first_matching_id;
use yt_play::reconcile;
use yt_play::str_eq;

fn song(id: &str, title: &str) -> Song {
    Song { id: id.to_string(), title: title.to_string() }
}

#[test]
fn deletes_stale_and_fetches_missing() {
    let songs = vec![song("A", "A title"), song("B", "B title")];
    let files = vec!["Old [Z].mp3".to_string(), "B song [B].mp3".to_string()];
    let plan = reconcile(&songs, &files);
    assert_eq!(plan.delete, vec!["Old [Z].mp3".to_string()]);
    assert_eq!(plan.missing, vec!["A".to_string()]);
}

#[test]
fn empty_desired_deletes_everything_and_fetches_nothing() {
    let songs: Vec<Song> = Vec::new();
    let files = vec!["x.mp3".to_string(), "y [Q].mp3".to_string()];
    let plan = reconcile(&songs, &files);
    assert_eq!(plan.delete, files);
    assert!(plan.missing.is_empty());
}

#[test]
fn reconciled_state_plans_nothing() {
    let songs = vec![song("A", "A title"), song("B", "B title")];
    let files = vec!["A title [A].mp3".to_string(), "B song [B].mp3".to_string()];
    let plan = reconcile(&songs, &files);
    assert!(plan.delete.is_empty());
    assert!(plan.missing.is_empty());
}

#[test]
fn second_pass_after_full_state_is_a_no_op() {
    let songs = vec![song("A", "A title"), song("B", "B title")];
    let files = vec!["A title [A].mp3".to_string(), "B song [B].mp3".to_string()];
    let first = reconcile(&songs, &files);
    assert!(first.delete.is_empty() && first.missing.is_empty());
    let second = reconcile(&songs, &files);
    assert!(second.delete.is_empty() && second.missing.is_empty());
}

#[test]
fn file_with_desired_substring_identifier_is_kept() {
    // "B" is a substring of "AB"; the file embedding "AB" also contains "B",
    // so it matches a desired identifier and is never deleted.
    let songs = vec![song("B", "B title"), song("AB", "AB title")];
    let files = vec!["x [AB].mp3".to_string()];
    let plan = reconcile(&songs, &files);
    assert!(plan.delete.is_empty());
    // First match wins: the file is recorded for "B", so "AB" is fetched.
    assert_eq!(plan.missing, vec!["AB".to_string()]);
}

#[test]
fn empty_directory_fetches_all() {
    let songs = vec![song("A", "a"), song("B", "b")];
    let files: Vec<String> = Vec::new();
    let plan = reconcile(&songs, &files);
    assert!(plan.delete.is_empty());
    assert_eq!(plan.missing, vec!["A".to_string(), "B".to_string()]);
}

#[test]
fn duplicate_missing_identifiers_are_kept_in_order() {
    let songs = vec![song("A", "a"), song("A", "a again"), song("B", "b")];
    let files = vec!["b [B].mp3".to_string()];
    let plan = reconcile(&songs, &files);
    assert!(plan.delete.is_empty());
    assert_eq!(plan.missing, vec!["A".to_string(), "A".to_string()]);
}

#[test]
fn first_matching_id_takes_playlist_order() {
    let songs = vec![song("B", "b"), song("AB", "ab")];
    assert_eq!(first_matching_id(&songs, "x [AB].mp3"), Some("B".to_string()));
    assert_eq!(first_matching_id(&songs, "nothing here"), None);
}

#[test]
fn contains_str_finds_substrings() {
    assert!(contains_str("abc", "b"));
    assert!(contains_str("abc", "abc"));
    assert!(contains_str("abc", ""));
    assert!(!contains_str("abc", "abcd"));
    assert!(!contains_str("", "x"));
    assert!(contains_str("", ""));
    assert!(contains_str("Weird [名前].opus", "名前"));
    assert!(!contains_str("abc", "ac"));
}

#[test]
fn str_eq_compares_exactly() {
    assert!(str_eq("list", "list"));
    assert!(!str_eq("list", "List"));
    assert!(!str_eq("list", "lists"));
    assert!(str_eq("", ""));
}
