use vstd::prelude::*;

verus! {

/// The fatal failure kinds of the library. Every error propagates to the
/// caller unhandled; none is retried.
#[derive(Debug)]
pub enum PlaylistError {
    /// The playlist URL failed to parse; carries the parser's message.
    InvalidUrl(String),
    /// The URL has no `list` query parameter.
    MissingPlaylistParameter,
    /// The platform cache root could not be resolved.
    NoHomeDirectory,
    /// The cache directory could not be created; carries the reason.
    CacheDirCreationFailed(String),
    /// The external downloader could not be started; carries the reason.
    DownloaderInvocationFailed(String),
    /// The downloader's output was not valid UTF-8.
    DownloaderOutputNotUtf8,
    /// The downloader's output did not parse as a playlist record.
    DownloaderOutputMalformed,
    /// Listing or deleting a cached file failed; carries the reason.
    FileSystemError(String),
    /// The batch download exited with a non-zero status.
    PartialDownloadFailure,
}

impl PlaylistError {
    /// A human-readable description of the error, fixed per variant; the
    /// variants that carry a reason have it appended.
    pub fn message(&self) -> (r: String)
        ensures
            self matches PlaylistError::InvalidUrl(m) ==> r@ == "Invalid URL format: "@ + m@,
            self matches PlaylistError::MissingPlaylistParameter ==> r@
                == "Could not find a 'list' parameter in the URL"@,
            self matches PlaylistError::NoHomeDirectory ==> r@
                == "Home directory could not be found"@,
            self matches PlaylistError::CacheDirCreationFailed(m) ==> r@
                == "Failed to create cache directory: "@ + m@,
            self matches PlaylistError::DownloaderInvocationFailed(m) ==> r@
                == "Failed to invoke the downloader: "@ + m@,
            self matches PlaylistError::DownloaderOutputNotUtf8 ==> r@
                == "Downloader output was not valid UTF-8"@,
            self matches PlaylistError::DownloaderOutputMalformed ==> r@
                == "Downloader output did not parse as a playlist"@,
            self matches PlaylistError::FileSystemError(m) ==> r@
                == "File system operation failed: "@ + m@,
            self matches PlaylistError::PartialDownloadFailure ==> r@
                == "yt-dlp failed to download some files"@,
    {
        match self {
            PlaylistError::InvalidUrl(m) => String::from_str("Invalid URL format: ").concat(
                m.as_str(),
            ),
            PlaylistError::MissingPlaylistParameter => String::from_str(
                "Could not find a 'list' parameter in the URL",
            ),
            PlaylistError::NoHomeDirectory => String::from_str("Home directory could not be found"),
            PlaylistError::CacheDirCreationFailed(m) => String::from_str(
                "Failed to create cache directory: ",
            ).concat(m.as_str()),
            PlaylistError::DownloaderInvocationFailed(m) => String::from_str(
                "Failed to invoke the downloader: ",
            ).concat(m.as_str()),
            PlaylistError::DownloaderOutputNotUtf8 => String::from_str(
                "Downloader output was not valid UTF-8",
            ),
            PlaylistError::DownloaderOutputMalformed => String::from_str(
                "Downloader output did not parse as a playlist",
            ),
            PlaylistError::FileSystemError(m) => String::from_str(
                "File system operation failed: ",
            ).concat(m.as_str()),
            PlaylistError::PartialDownloadFailure => String::from_str(
                "yt-dlp failed to download some files",
            ),
        }
    }
}

} // verus!
