use yt_play::CacheAction;
use yt_play::PlaylistError;
use yt_play::batch_urls;
use yt_play::get_playlist_directory;
use yt_play::join_cache_path;
use yt_play::mpv_args;
use yt_play::plan_invocation;
use yt_play::playlist_url;
use yt_play::split_whitespace_args;
use yt_play::watch_url;
use yt_play::yt_dlp_batch_args;
use yt_play::yt_dlp_fetch_args;

#[test]
fn join_cache_path_appends_identifier() {
    assert_eq!(join_cache_path("/home/u/.cache/yt-play", "PL1"), "/home/u/.cache/yt-play/PL1");
}

#[test]
fn playlist_directory_ends_with_identifier() {
    match get_playlist_directory("XYZ") {
        Ok(p) => assert!(p.ends_with("/XYZ")),
        Err(e) => assert!(matches!(e, PlaylistError::NoHomeDirectory)),
    }
}

#[test]
fn split_whitespace_args_splits_on_runs() {
    assert_eq!(split_whitespace_args("a b  c"), vec!["a", "b", "c"]);
    assert_eq!(split_whitespace_args("  lead trail  "), vec!["lead", "trail"]);
    assert_eq!(split_whitespace_args("tabs\tand\nnewlines"), vec!["tabs", "and", "newlines"]);
    assert_eq!(split_whitespace_args(""), Vec::<String>::new());
    assert_eq!(split_whitespace_args("   "), Vec::<String>::new());
    assert_eq!(split_whitespace_args("one"), vec!["one"]);
    assert_eq!(split_whitespace_args("a\u{b}b\u{c}c\rd"), vec!["a", "b", "c", "d"]);
}

#[test]
fn urls_are_built_exactly() {
    assert_eq!(playlist_url("PL1"), "https://www.youtube.com/playlist?list=PL1");
    assert_eq!(watch_url("abc"), "https://www.youtube.com/watch?v=abc");
}

#[test]
fn batch_urls_map_each_identifier() {
    let missing = vec!["A".to_string(), "B".to_string()];
    assert_eq!(
        batch_urls(&missing),
        vec![
            "https://www.youtube.com/watch?v=A".to_string(),
            "https://www.youtube.com/watch?v=B".to_string(),
        ]
    );
}

#[test]
fn fetch_arguments_are_built_exactly() {
    assert_eq!(
        yt_dlp_fetch_args("PL1"),
        vec!["--flat-playlist", "-J", "https://www.youtube.com/playlist?list=PL1"]
    );
}

#[test]
fn batch_arguments_are_built_exactly() {
    assert_eq!(
        yt_dlp_batch_args(""),
        vec!["--batch-file", "-", "-o", "%(title)s [%(id)s].%(ext)s", "-x"]
    );
    assert_eq!(
        yt_dlp_batch_args("--limit-rate 1M"),
        vec!["--batch-file", "-", "-o", "%(title)s [%(id)s].%(ext)s", "-x", "--limit-rate", "1M"]
    );
}

#[test]
fn player_arguments_are_built_exactly() {
    assert_eq!(mpv_args(false, ""), vec!["--no-video", "."]);
    assert_eq!(mpv_args(true, ""), vec!["--no-video", "--shuffle", "."]);
    assert_eq!(
        mpv_args(true, "--volume 50"),
        vec!["--no-video", "--shuffle", "--volume", "50", "."]
    );
}

#[test]
fn existing_cache_without_refresh_plays_directly() {
    assert!(matches!(plan_invocation(true, false), CacheAction::PlayOnly));
}

#[test]
fn invocation_plan_covers_every_state() {
    assert!(matches!(plan_invocation(false, false), CacheAction::CreateFetchPlay));
    assert!(matches!(plan_invocation(false, true), CacheAction::CreateFetchPlay));
    assert!(matches!(plan_invocation(true, true), CacheAction::FetchPlay));
}

#[test]
fn error_messages_are_fixed_per_variant() {
    assert_eq!(
        PlaylistError::InvalidUrl("relative URL without a base".to_string()).message(),
        "Invalid URL format: relative URL without a base"
    );
    assert_eq!(
        PlaylistError::MissingPlaylistParameter.message(),
        "Could not find a 'list' parameter in the URL"
    );
    assert_eq!(PlaylistError::NoHomeDirectory.message(), "Home directory could not be found");
    assert_eq!(
        PlaylistError::CacheDirCreationFailed("denied".to_string()).message(),
        "Failed to create cache directory: denied"
    );
    assert_eq!(
        PlaylistError::DownloaderInvocationFailed("no such file".to_string()).message(),
        "Failed to invoke the downloader: no such file"
    );
    assert_eq!(
        PlaylistError::DownloaderOutputNotUtf8.message(),
        "Downloader output was not valid UTF-8"
    );
    assert_eq!(
        PlaylistError::DownloaderOutputMalformed.message(),
        "Downloader output did not parse as a playlist"
    );
    assert_eq!(
        PlaylistError::FileSystemError("permission denied".to_string()).message(),
        "File system operation failed: permission denied"
    );
    assert_eq!(
        PlaylistError::PartialDownloadFailure.message(),
        "yt-dlp failed to download some files"
    );
}
