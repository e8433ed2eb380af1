use vstd::prelude::*;

use crate::playlist::Song;
use crate::playlist::song_ids;
use crate::strutil::contains_str;
use crate::strutil::contains_sub;

verus! {

/// A filename matches the desired entries when it contains some desired
/// identifier as a substring.
pub open spec fn matches_any(name: Seq<char>, ids: Seq<Seq<char>>) -> bool {
    exists|j: int| 0 <= j < ids.len() && contains_sub(name, #[trigger] ids[j])
}

/// The first desired identifier, by position, that a filename contains.
pub open spec fn first_match(name: Seq<char>, ids: Seq<Seq<char>>) -> Option<Seq<char>>
    decreases ids.len(),
{
    if ids.len() == 0 {
        None
    } else if contains_sub(name, ids[0]) {
        Some(ids[0])
    } else {
        first_match(name, ids.drop_first())
    }
}

/// The identifiers recorded as found over a scan of the files: for each file
/// that matches, the first desired identifier its name contains.
pub open spec fn found_ids(files: Seq<Seq<char>>, ids: Seq<Seq<char>>) -> Set<Seq<char>>
    decreases files.len(),
{
    if files.len() == 0 {
        Set::empty()
    } else {
        match first_match(files.last(), ids) {
            Some(id) => found_ids(files.drop_last(), ids).insert(id),
            None => found_ids(files.drop_last(), ids),
        }
    }
}

/// The stale files: those whose name contains no desired identifier, in
/// directory order. Reconciliation deletes exactly these.
pub open spec fn stale_files(files: Seq<Seq<char>>, ids: Seq<Seq<char>>) -> Seq<Seq<char>> {
    files.filter(|f: Seq<char>| !matches_any(f, ids))
}

/// The missing identifiers: those never recorded as found, in playlist order.
/// Reconciliation fetches exactly these.
pub open spec fn missing_ids(ids: Seq<Seq<char>>, found: Set<Seq<char>>) -> Seq<Seq<char>> {
    ids.filter(|id: Seq<char>| !found.contains(id))
}

/// What one reconciliation pass decides: the filenames to delete, in
/// directory order, and the identifiers to fetch, in playlist order.
pub struct ReconcilePlan {
    pub delete: Vec<String>,
    pub missing: Vec<String>,
}

/// `first_match` succeeds exactly when some desired identifier occurs in the
/// name, and what it returns is such an identifier.
pub proof fn lemma_first_match(name: Seq<char>, ids: Seq<Seq<char>>)
    ensures
        first_match(name, ids) is Some <==> matches_any(name, ids),
        first_match(name, ids) matches Some(id) ==> ids.contains(id) && contains_sub(name, id),
    decreases ids.len(),
{
    if ids.len() == 0 {
    } else if contains_sub(name, ids[0]) {
        assert(ids.contains(ids[0]));
    } else {
        let rest = ids.drop_first();
        lemma_first_match(name, rest);
        if first_match(name, rest) is Some {
            let id = first_match(name, rest)->Some_0;
            let j = choose|j: int| 0 <= j < rest.len() && rest[j] == id;
            assert(ids[j + 1] == id);
            let k = choose|k: int| 0 <= k < rest.len() && contains_sub(name, rest[k]);
            assert(contains_sub(name, ids[k + 1]));
        } else {
            assert forall|j: int| 0 <= j < ids.len() implies !contains_sub(
                name,
                #[trigger] ids[j],
            ) by {
                if j > 0 {
                    assert(rest[j - 1] == ids[j]);
                }
            }
        }
    }
}

/// Pushing onto a sequence inserts into the set of its elements.
proof fn lemma_push_to_set<A>(s: Seq<A>, x: A)
    ensures
        s.push(x).to_set() =~= s.to_set().insert(x),
{
    assert forall|a: A| s.push(x).to_set().contains(a) implies s.to_set().insert(x).contains(
        a,
    ) by {
        let i = choose|i: int| 0 <= i < s.push(x).len() && s.push(x)[i] == a;
        if i < s.len() {
            assert(s[i] == a);
        }
    }
    assert forall|a: A| s.to_set().insert(x).contains(a) implies s.push(x).to_set().contains(
        a,
    ) by {
        if a == x {
            assert(s.push(x)[s.len() as int] == a);
        } else {
            let i = choose|i: int| 0 <= i < s.len() && s[i] == a;
            assert(s.push(x)[i] == a);
        }
    }
}

/// Returns the first desired identifier, in playlist order, that the filename
/// contains, or `None` when the name matches no desired entry.
pub fn first_matching_id(songs: &Vec<Song>, name: &str) -> (r: Option<String>)
    ensures
        r matches Some(id) ==> first_match(name@, song_ids(songs@)) == Some(id@),
        r is None ==> first_match(name@, song_ids(songs@)) is None,
{
    let ghost ids = song_ids(songs@);
    proof {
        assert(ids.skip(0) =~= ids);
    }
    let mut j: usize = 0;
    while j < songs.len()
        invariant
            ids == song_ids(songs@),
            0 <= j <= songs.len(),
            first_match(name@, ids) == first_match(name@, ids.skip(j as int)),
        decreases songs.len() - j,
    {
        proof {
            assert(ids.skip(j as int)[0] == ids[j as int]);
        }
        if contains_str(name, songs[j].id.as_str()) {
            return Some(songs[j].id.clone());
        }
        proof {
            assert(ids.skip(j as int).drop_first() =~= ids.skip(j as int + 1));
        }
        j += 1;
    }
    proof {
        assert(ids.skip(songs.len() as int) =~= Seq::<Seq<char>>::empty());
    }
    None
}

/// One reconciliation pass over the desired entries and the observed
/// filenames: plans the deletion of every stale file and the fetch of every
/// missing identifier, and nothing else.
pub fn reconcile(songs: &Vec<Song>, filenames: &Vec<String>) -> (plan: ReconcilePlan)
    ensures
        plan.delete.deep_view() == stale_files(filenames.deep_view(), song_ids(songs@)),
        plan.missing.deep_view() == missing_ids(
            song_ids(songs@),
            found_ids(filenames.deep_view(), song_ids(songs@)),
        ),
{
    let ghost ids = song_ids(songs@);
    let ghost files = filenames.deep_view();
    let mut delete: Vec<String> = Vec::new();
    let mut found: Vec<String> = Vec::new();
    proof {
        assert(files.take(0) =~= Seq::<Seq<char>>::empty());
        assert(Seq::<Seq<char>>::empty().to_set() =~= Set::<Seq<char>>::empty());
        reveal(Seq::filter);
    }
    let mut i: usize = 0;
    while i < filenames.len()
        invariant
            ids == song_ids(songs@),
            files == filenames.deep_view(),
            0 <= i <= filenames.len(),
            delete.deep_view() == stale_files(files.take(i as int), ids),
            found.deep_view().to_set() == found_ids(files.take(i as int), ids),
        decreases filenames.len() - i,
    {
        let ghost pre = files.take(i as int);
        let ghost post = files.take(i as int + 1);
        proof {
            assert(post.drop_last() =~= pre);
            assert(post.last() == files[i as int]);
            assert(files[i as int] == filenames[i as int]@);
            lemma_first_match(files[i as int], ids);
            reveal(Seq::filter);
        }
        let name = &filenames[i];
        let ghost old_delete = delete.deep_view();
        let ghost old_found = found.deep_view();
        match first_matching_id(songs, name.as_str()) {
            Some(id) => {
                proof {
                    lemma_push_to_set(old_found, id@);
                }
                found.push(id);
                proof {
                    assert(found.deep_view() =~= old_found.push(
                        first_match(files[i as int], ids)->Some_0,
                    ));
                }
            },
            None => {
                delete.push(name.clone());
                proof {
                    assert(found_ids(post, ids) == found_ids(pre, ids));
                    assert(delete.deep_view() =~= old_delete.push(files[i as int]));
                }
            },
        }
        i += 1;
    }
    proof {
        assert(files.take(filenames.len() as int) =~= files);
    }
    let ghost found_set = found_ids(files, ids);
    let mut missing: Vec<String> = Vec::new();
    proof {
        assert(ids.take(0) =~= Seq::<Seq<char>>::empty());
        reveal(Seq::filter);
    }
    let mut k: usize = 0;
    while k < songs.len()
        invariant
            ids == song_ids(songs@),
            found.deep_view().to_set() == found_set,
            0 <= k <= songs.len(),
            missing.deep_view() == missing_ids(ids.take(k as int), found_set),
        decreases songs.len() - k,
    {
        let ghost pre = ids.take(k as int);
        let ghost post = ids.take(k as int + 1);
        proof {
            assert(post.drop_last() =~= pre);
            assert(post.last() == ids[k as int]);
            assert(ids[k as int] == songs@[k as int].id@);
            reveal(Seq::filter);
        }
        let ghost old_missing = missing.deep_view();
        if !vec_contains_string(&found, &songs[k].id) {
            missing.push(songs[k].id.clone());
            proof {
                assert(missing.deep_view() =~= old_missing.push(ids[k as int]));
            }
        }
        k += 1;
    }
    proof {
        assert(ids.take(songs.len() as int) =~= ids);
    }
    ReconcilePlan { delete, missing }
}

/// Whether the vector holds a string equal to `x`.
fn vec_contains_string(v: &Vec<String>, x: &String) -> (r: bool)
    ensures
        r == v.deep_view().to_set().contains(x@),
{
    let mut i: usize = 0;
    while i < v.len()
        invariant
            0 <= i <= v.len(),
            forall|m: int| 0 <= m < i ==> v.deep_view()[m] != x@,
        decreases v.len() - i,
    {
        if crate::strutil::str_eq(v[i].as_str(), x.as_str()) {
            assert(v.deep_view()[i as int] == x@);
            return true;
        }
        i += 1;
    }
    false
}

} // verus!
