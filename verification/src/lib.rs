mod args;
mod cache;
mod error;
mod ident;
mod laws;
mod plan;
mod playlist;
mod reconcile;
mod strutil;

pub use args::batch_args_spec;
pub use args::batch_urls;
pub use args::fetch_args_spec;
pub use args::is_space;
pub use args::mpv_args;
pub use args::mpv_args_spec;
pub use args::playlist_url;
pub use args::split_whitespace_args;
pub use args::split_ws;
pub use args::watch_url;
pub use args::yt_dlp_batch_args;
pub use args::yt_dlp_fetch_args;
pub use cache::get_playlist_directory;
pub use cache::has_id_suffix;
pub use cache::join_cache_path;
pub use error::PlaylistError;
pub use ident::extract_id;
pub use ident::find_list;
pub use ident::find_list_value;
pub use ident::lemma_find_list_first;
pub use ident::lemma_find_list_none;
pub use ident::url_parse_ok;
pub use ident::url_query_pairs;
pub use laws::kept_files;
pub use laws::lemma_desired_file_not_deleted;
pub use laws::lemma_empty_desired;
pub use laws::lemma_pass_reconciles;
pub use laws::lemma_reconcile_idempotent;
pub use laws::reconciled;
pub use plan::CacheAction;
pub use plan::plan_invocation;
pub use playlist::Playlist;
pub use playlist::Song;
pub use playlist::song_ids;
pub use reconcile::ReconcilePlan;
pub use reconcile::first_match;
pub use reconcile::first_matching_id;
pub use reconcile::found_ids;
pub use reconcile::lemma_first_match;
pub use reconcile::matches_any;
pub use reconcile::missing_ids;
pub use reconcile::reconcile;
pub use reconcile::stale_files;
pub use strutil::contains_str;
pub use strutil::contains_sub;
pub use strutil::str_eq;
