use vstd::prelude::*;

use crate::error::PlaylistError;
use crate::strutil::str_eq;

verus! {

/// Whether the URL parser accepts the text. Stands for the success of
/// `url::Url::parse`, which is a pure function of its input.
pub uninterp spec fn url_parse_ok(url: Seq<char>) -> bool;

/// The decoded query pairs of the parsed URL, in encounter order. Stands for
/// what `url::Url::query_pairs` yields on the URL that `url::Url::parse`
/// returns, again a pure function of the input text.
pub uninterp spec fn url_query_pairs(url: Seq<char>) -> Seq<(Seq<char>, Seq<char>)>;

/// Relies on `url::Url::parse`, which accepts or rejects the text
/// deterministically, and `url::Url::query_pairs`, which yields the decoded
/// key-value pairs of the query string in encounter order (an absent query
/// string yields no pairs). The error case carries the parser's message.
#[verifier::external_body]
fn parse_query_pairs(url: &str) -> (r: Result<Vec<(String, String)>, String>)
    ensures
        r is Ok <==> url_parse_ok(url@),
        r matches Ok(v) ==> v.deep_view() == url_query_pairs(url@),
{
    match url::Url::parse(url) {
        Ok(u) => Ok(
            u.query_pairs().map(|(k, v)| (k.into_owned(), v.into_owned())).collect(),
        ),
        Err(e) => Err(format!("{e}")),
    }
}

/// The value of the first query pair whose key is exactly `list`, if any.
pub open spec fn find_list(pairs: Seq<(Seq<char>, Seq<char>)>) -> Option<Seq<char>>
    decreases pairs.len(),
{
    if pairs.len() == 0 {
        None
    } else if pairs[0].0 == "list"@ {
        Some(pairs[0].1)
    } else {
        find_list(pairs.drop_first())
    }
}

/// Law: extraction misses exactly when no query pair has the key `list`.
pub proof fn lemma_find_list_none(pairs: Seq<(Seq<char>, Seq<char>)>)
    ensures
        find_list(pairs) is None <==> (forall|k: int|
            0 <= k < pairs.len() ==> (#[trigger] pairs[k]).0 != "list"@),
    decreases pairs.len(),
{
    if pairs.len() == 0 {
    } else if pairs[0].0 == "list"@ {
    } else {
        let rest = pairs.drop_first();
        lemma_find_list_none(rest);
        if find_list(pairs) is None {
            assert forall|k: int| 0 <= k < pairs.len() implies (#[trigger] pairs[k]).0
                != "list"@ by {
                if k > 0 {
                    assert(rest[k - 1] == pairs[k]);
                }
            }
        } else {
            let m = choose|m: int| 0 <= m < rest.len() && (#[trigger] rest[m]).0 == "list"@;
            assert(pairs[m + 1] == rest[m]);
        }
    }
}

/// Law: whatever query pairs stand around it and in whatever order, the
/// extracted value is the value of the first pair whose key is `list`.
pub proof fn lemma_find_list_first(pairs: Seq<(Seq<char>, Seq<char>)>, k: int)
    requires
        0 <= k < pairs.len(),
        pairs[k].0 == "list"@,
        forall|m: int| 0 <= m < k ==> (#[trigger] pairs[m]).0 != "list"@,
    ensures
        find_list(pairs) == Some(pairs[k].1),
    decreases pairs.len(),
{
    if k == 0 {
    } else {
        let rest = pairs.drop_first();
        assert(pairs[0].0 != "list"@);
        assert forall|m: int| 0 <= m < k - 1 implies (#[trigger] rest[m]).0 != "list"@ by {
            assert(rest[m] == pairs[m + 1]);
        }
        assert(rest[k - 1] == pairs[k]);
        lemma_find_list_first(rest, k - 1);
    }
}

/// Scans the pairs in order and returns the value of the first one whose key
/// is `list`.
pub fn find_list_value(pairs: &Vec<(String, String)>) -> (r: Option<String>)
    ensures
        r matches Some(v) ==> find_list(pairs.deep_view()) == Some(v@),
        r is None ==> find_list(pairs.deep_view()) is None,
{
    let ghost all = pairs.deep_view();
    proof {
        assert(all.skip(0) =~= all);
    }
    let mut i: usize = 0;
    while i < pairs.len()
        invariant
            all == pairs.deep_view(),
            0 <= i <= pairs.len(),
            find_list(all) == find_list(all.skip(i as int)),
        decreases pairs.len() - i,
    {
        proof {
            assert(all.skip(i as int)[0] == all[i as int]);
        }
        if str_eq(pairs[i].0.as_str(), "list") {
            return Some(pairs[i].1.clone());
        }
        proof {
            assert(all.skip(i as int).drop_first() =~= all.skip(i as int + 1));
        }
        i += 1;
    }
    proof {
        assert(all.skip(pairs.len() as int) =~= Seq::<(Seq<char>, Seq<char>)>::empty());
    }
    None
}

/// Extracts the playlist identifier from a URL: the value of its first `list`
/// query parameter. A URL the parser rejects gives `InvalidUrl`; a URL without
/// a `list` parameter gives `MissingPlaylistParameter`.
pub fn extract_id(url: &str) -> (r: Result<String, PlaylistError>)
    ensures
        !url_parse_ok(url@) ==> (r matches Err(e) && e is InvalidUrl),
        url_parse_ok(url@) && find_list(url_query_pairs(url@)) is None ==> (r matches Err(e)
            && e is MissingPlaylistParameter),
        url_parse_ok(url@) && find_list(url_query_pairs(url@)) is Some ==> (r matches Ok(id)
            && Some(id@) == find_list(url_query_pairs(url@))),
{
    match parse_query_pairs(url) {
        Err(m) => Err(PlaylistError::InvalidUrl(m)),
        Ok(pairs) => match find_list_value(&pairs) {
            Some(v) => Ok(v),
            None => Err(PlaylistError::MissingPlaylistParameter),
        },
    }
}

} // verus!
