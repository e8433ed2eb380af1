use vstd::prelude::*;

verus! {

/// One remote playlist item: a stable external identifier and a display
/// title. The title may change between fetches; reconciliation goes by the
/// identifier alone.
pub struct Song {
    pub id: String,
    pub title: String,
}

/// A fetched playlist: its title and its entries in playlist order. It lives
/// only for one fetch-and-reconcile operation and is never persisted.
pub struct Playlist {
    pub title: String,
    pub entries: Vec<Song>,
}

/// The identifiers of the entries, in playlist order, duplicates kept.
pub open spec fn song_ids(songs: Seq<Song>) -> Seq<Seq<char>> {
    songs.map_values(|s: Song| s.id@)
}

} // verus!
