use vstd::prelude::*;

verus! {

/// What one invocation does, decided once from the observed cache state and
/// the refresh flag.
pub enum CacheAction {
    /// The cache directory is absent: create it, fetch and reconcile, play.
    CreateFetchPlay,
    /// The directory exists and a refresh was requested: fetch and reconcile,
    /// then play.
    FetchPlay,
    /// The directory exists and no refresh was requested: play directly; the
    /// cache is trusted as it stands.
    PlayOnly,
}

/// The transition rule of the orchestration: fetch and reconcile exactly when
/// the cache directory is absent or a refresh was requested; create the
/// directory exactly when it is absent.
pub fn plan_invocation(cache_exists: bool, refresh: bool) -> (a: CacheAction)
    ensures
        a is CreateFetchPlay <==> !cache_exists,
        a is FetchPlay <==> cache_exists && refresh,
        a is PlayOnly <==> cache_exists && !refresh,
{
    if !cache_exists {
        CacheAction::CreateFetchPlay
    } else if refresh {
        CacheAction::FetchPlay
    } else {
        CacheAction::PlayOnly
    }
}

} // verus!
