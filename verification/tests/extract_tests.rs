use yt_play::PlaylistError;
use yt_play::extract_id;
use yt_play::find_list_value;

#[test]
fn extracts_list_parameter() {
    let r = extract_id("https://www.youtube.com/playlist?list=PL123").unwrap();
    assert_eq!(r, "PL123");
}

#[test]
fn extracts_list_among_other_parameters() {
    let r = extract_id("https://example.com/path?a=1&list=XYZ&b=2").unwrap();
    assert_eq!(r, "XYZ");
}

#[test]
fn extracts_first_list_parameter() {
    let r = extract_id("https://example.com/?list=first&list=second").unwrap();
    assert_eq!(r, "first");
}

#[test]
fn extracts_decoded_value() {
    let r = extract_id("https://example.com/?list=a%20b").unwrap();
    assert_eq!(r, "a b");
}

#[test]
fn accepts_non_playlist_domain() {
    let r = extract_id("https://example.org/page?list=Q").unwrap();
    assert_eq!(r, "Q");
}

#[test]
fn missing_list_parameter_fails() {
    let e = extract_id("https://www.youtube.com/watch?v=abc").unwrap_err();
    assert!(matches!(e, PlaylistError::MissingPlaylistParameter));
}

#[test]
fn url_without_query_fails() {
    let e = extract_id("https://example.com/").unwrap_err();
    assert!(matches!(e, PlaylistError::MissingPlaylistParameter));
}

#[test]
fn invalid_url_fails() {
    let e = extract_id("not a url").unwrap_err();
    assert!(matches!(e, PlaylistError::InvalidUrl(_)));
}

#[test]
fn invalid_url_surfaces_parser_message() {
    let e = extract_id("::not-a-url::").unwrap_err();
    match &e {
        PlaylistError::InvalidUrl(m) => assert!(!m.is_empty()),
        other => panic!("expected InvalidUrl, got {other:?}"),
    }
    assert!(e.message().starts_with("Invalid URL format: "));
}

#[test]
fn find_list_value_picks_first_list_key() {
    let pairs: Vec<(String, String)> = vec![
        ("x".to_string(), "1".to_string()),
        ("list".to_string(), "A".to_string()),
        ("list".to_string(), "B".to_string()),
    ];
    assert_eq!(find_list_value(&pairs), Some("A".to_string()));
}

#[test]
fn find_list_value_none_without_list_key() {
    let pairs: Vec<(String, String)> = vec![("x".to_string(), "1".to_string())];
    assert_eq!(find_list_value(&pairs), None);
}
