use vstd::prelude::*;

use crate::reconcile::first_match;
use crate::reconcile::found_ids;
use crate::reconcile::lemma_first_match;
use crate::reconcile::matches_any;
use crate::reconcile::missing_ids;
use crate::reconcile::stale_files;
use crate::strutil::contains_sub;

verus! {

/// A directory is fully reconciled against the desired identifiers when every
/// file matches some desired identifier and every desired identifier was
/// recorded as found.
pub open spec fn reconciled(files: Seq<Seq<char>>, ids: Seq<Seq<char>>) -> bool {
    &&& forall|i: int| 0 <= i < files.len() ==> matches_any(#[trigger] files[i], ids)
    &&& forall|j: int| 0 <= j < ids.len() ==> found_ids(files, ids).contains(#[trigger] ids[j])
}

/// A filter that rejects every element of a sequence yields the empty
/// sequence.
proof fn lemma_filter_none<A>(s: Seq<A>, pred: spec_fn(A) -> bool)
    requires
        forall|i: int| 0 <= i < s.len() ==> !pred(#[trigger] s[i]),
    ensures
        s.filter(pred) == Seq::<A>::empty(),
    decreases s.len(),
{
    reveal(Seq::filter);
    if s.len() > 0 {
        assert(forall|i: int|
            0 <= i < s.drop_last().len() ==> #[trigger] s.drop_last()[i] == s[i]);
        lemma_filter_none(s.drop_last(), pred);
        assert(s.last() == s[s.len() - 1]);
    }
}

/// A filter that accepts every element of a sequence yields the sequence
/// itself.
proof fn lemma_filter_all<A>(s: Seq<A>, pred: spec_fn(A) -> bool)
    requires
        forall|i: int| 0 <= i < s.len() ==> pred(#[trigger] s[i]),
    ensures
        s.filter(pred) == s,
    decreases s.len(),
{
    reveal(Seq::filter);
    if s.len() > 0 {
        assert(forall|i: int|
            0 <= i < s.drop_last().len() ==> #[trigger] s.drop_last()[i] == s[i]);
        lemma_filter_all(s.drop_last(), pred);
        assert(s.last() == s[s.len() - 1]);
        assert(s.drop_last().push(s.last()) =~= s);
    }
}

/// Law: reconciliation is idempotent. Against a directory already in the
/// fully reconciled state, a pass plans no deletion and no fetch.
pub proof fn lemma_reconcile_idempotent(files: Seq<Seq<char>>, ids: Seq<Seq<char>>)
    requires
        reconciled(files, ids),
    ensures
        stale_files(files, ids) == Seq::<Seq<char>>::empty(),
        missing_ids(ids, found_ids(files, ids)) == Seq::<Seq<char>>::empty(),
{
    lemma_filter_none(files, |f: Seq<char>| !matches_any(f, ids));
    lemma_filter_none(ids, |id: Seq<char>| !found_ids(files, ids).contains(id));
}

/// Law: a file whose name contains a currently-desired identifier is never
/// scheduled for deletion.
pub proof fn lemma_desired_file_not_deleted(
    files: Seq<Seq<char>>,
    ids: Seq<Seq<char>>,
    name: Seq<char>,
    j: int,
)
    requires
        0 <= j < ids.len(),
        contains_sub(name, ids[j]),
    ensures
        !stale_files(files, ids).contains(name),
{
    assert(matches_any(name, ids));
    let pred = |f: Seq<char>| !matches_any(f, ids);
    if stale_files(files, ids).contains(name) {
        let i = choose|i: int|
            0 <= i < stale_files(files, ids).len() && stale_files(files, ids)[i] == name;
        files.lemma_filter_pred(pred, i);
    }
}

/// The files a pass keeps: those whose name matches some desired identifier.
pub open spec fn kept_files(files: Seq<Seq<char>>, ids: Seq<Seq<char>>) -> Seq<Seq<char>> {
    files.filter(|f: Seq<char>| matches_any(f, ids))
}

/// The found identifiers of a concatenation are the union of those of the
/// parts.
proof fn lemma_found_ids_append(a: Seq<Seq<char>>, b: Seq<Seq<char>>, ids: Seq<Seq<char>>)
    ensures
        found_ids(a + b, ids) == found_ids(a, ids).union(found_ids(b, ids)),
    decreases b.len(),
{
    if b.len() == 0 {
        assert(a + b =~= a);
        assert(found_ids(a, ids).union(found_ids(b, ids)) =~= found_ids(a, ids));
    } else {
        lemma_found_ids_append(a, b.drop_last(), ids);
        assert((a + b).drop_last() =~= a + b.drop_last());
        assert((a + b).last() == b.last());
        match first_match(b.last(), ids) {
            Some(id) => {
                assert(found_ids(a, ids).union(found_ids(b.drop_last(), ids)).insert(id)
                    =~= found_ids(a, ids).union(found_ids(b.drop_last(), ids).insert(id)));
            },
            None => {},
        }
    }
}

/// Dropping the files that match nothing does not change which identifiers
/// are found.
proof fn lemma_found_kept(files: Seq<Seq<char>>, ids: Seq<Seq<char>>)
    ensures
        found_ids(kept_files(files, ids), ids) == found_ids(files, ids),
    decreases files.len(),
{
    reveal(Seq::filter);
    if files.len() == 0 {
    } else {
        lemma_found_kept(files.drop_last(), ids);
        lemma_first_match(files.last(), ids);
        if matches_any(files.last(), ids) {
            let k = kept_files(files, ids);
            assert(k == kept_files(files.drop_last(), ids).push(files.last()));
            assert(k.drop_last() =~= kept_files(files.drop_last(), ids));
            assert(k.last() == files.last());
        }
    }
}

/// The first match of any file in a scan is among the found identifiers.
proof fn lemma_found_contains_first_match(s: Seq<Seq<char>>, ids: Seq<Seq<char>>, i: int)
    requires
        0 <= i < s.len(),
        first_match(s[i], ids) is Some,
    ensures
        found_ids(s, ids).contains(first_match(s[i], ids)->Some_0),
    decreases s.len(),
{
    if i == s.len() - 1 {
        assert(s.last() == s[i]);
    } else {
        assert(s.drop_last()[i] == s[i]);
        lemma_found_contains_first_match(s.drop_last(), ids, i);
    }
}

/// Law: a completed pass leaves a fully reconciled directory, provided the
/// downloader wrote one file per missing identifier and named each so that
/// the first desired identifier its name contains is the file's own. By
/// `lemma_reconcile_idempotent` a second pass then plans no deletion and no
/// fetch.
pub proof fn lemma_pass_reconciles(
    files: Seq<Seq<char>>,
    ids: Seq<Seq<char>>,
    fetched: Seq<Seq<char>>,
)
    requires
        fetched.len() == missing_ids(ids, found_ids(files, ids)).len(),
        forall|i: int|
            0 <= i < fetched.len() ==> first_match(#[trigger] fetched[i], ids) == Some(
                missing_ids(ids, found_ids(files, ids))[i],
            ),
    ensures
        reconciled(kept_files(files, ids) + fetched, ids),
{
    let kept = kept_files(files, ids);
    let found = found_ids(files, ids);
    let missing = missing_ids(ids, found);
    let all = kept + fetched;
    assert forall|i: int| 0 <= i < all.len() implies matches_any(#[trigger] all[i], ids) by {
        if i < kept.len() {
            files.lemma_filter_pred(|f: Seq<char>| matches_any(f, ids), i);
        } else {
            lemma_first_match(fetched[i - kept.len()], ids);
        }
    }
    lemma_found_ids_append(kept, fetched, ids);
    lemma_found_kept(files, ids);
    assert forall|j: int| 0 <= j < ids.len() implies found_ids(all, ids).contains(
        #[trigger] ids[j],
    ) by {
        if !found.contains(ids[j]) {
            ids.lemma_filter_contains(|id: Seq<char>| !found.contains(id), j);
            let i = choose|i: int| 0 <= i < missing.len() && missing[i] == ids[j];
            lemma_found_contains_first_match(fetched, ids, i);
        }
    }
}

/// Law: with no desired entries every file is stale and nothing is missing.
pub proof fn lemma_empty_desired(files: Seq<Seq<char>>)
    ensures
        stale_files(files, Seq::<Seq<char>>::empty()) == files,
        missing_ids(
            Seq::<Seq<char>>::empty(),
            found_ids(files, Seq::<Seq<char>>::empty()),
        ) == Seq::<Seq<char>>::empty(),
{
    let ids = Seq::<Seq<char>>::empty();
    assert(forall|f: Seq<char>| !matches_any(f, ids));
    lemma_filter_all(files, |f: Seq<char>| !matches_any(f, ids));
    lemma_filter_none(ids, |id: Seq<char>| !found_ids(files, ids).contains(id));
}

} // verus!
