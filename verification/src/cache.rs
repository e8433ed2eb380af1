use vstd::prelude::*;

use crate::error::PlaylistError;

verus! {

/// The path ends in a separator followed by the identifier.
pub open spec fn has_id_suffix(path: Seq<char>, id: Seq<char>) -> bool {
    &&& path.len() > id.len()
    &&& path.subrange(path.len() - id.len(), path.len() as int) == id
    &&& path[path.len() - id.len() - 1] == '/'
}

/// Relies on `directories::ProjectDirs::from` with the fixed application
/// identity `("dev", "hawksley", "yt-play")` and on
/// `directories::ProjectDirs::cache_dir`: yields the platform cache root for
/// that identity, `None` when no home directory can be resolved (or the path
/// is not unicode). The result depends on the environment, so nothing further
/// is assumed of it.
#[verifier::external_body]
fn cache_root() -> (r: Option<String>) {
    directories::ProjectDirs::from("dev", "hawksley", "yt-play").and_then(
        |d| d.cache_dir().to_str().map(|s| s.to_string()),
    )
}

/// Joins the cache root and the identifier with a path separator.
pub fn join_cache_path(root: &str, playlist_id: &str) -> (r: String)
    ensures
        r@ == root@ + "/"@ + playlist_id@,
{
    String::from_str(root).concat("/").concat(playlist_id)
}

/// The per-playlist cache directory: the platform cache root for the
/// application, then the identifier as the final path segment. Fails with
/// `NoHomeDirectory` exactly when no cache root can be resolved. The path is
/// only computed; nothing touches the filesystem.
pub fn get_playlist_directory(playlist_id: &str) -> (r: Result<String, PlaylistError>)
    ensures
        r matches Ok(p) ==> has_id_suffix(p@, playlist_id@),
        r matches Err(e) ==> e is NoHomeDirectory,
{
    match cache_root() {
        Some(root) => {
            let p = join_cache_path(root.as_str(), playlist_id);
            proof {
                reveal_strlit("/");
                assert(p@.subrange(p@.len() - playlist_id@.len(), p@.len() as int)
                    =~= playlist_id@);
                assert(p@[p@.len() - playlist_id@.len() - 1] == ("/"@)[0]);
            }
            Ok(p)
        },
        None => Err(PlaylistError::NoHomeDirectory),
    }
}

} // verus!
