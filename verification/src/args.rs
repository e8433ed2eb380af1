use vstd::prelude::*;

verus! {

/// An ASCII whitespace character, the separator that token splitting of the
/// caller-supplied extra arguments goes by.
pub open spec fn is_space(c: char) -> bool {
    c == ' ' || c == '\t' || c == '\n' || c == '\r' || c == '\u{b}' || c == '\u{c}'
}

fn is_space_char(c: char) -> (r: bool)
    ensures
        r == is_space(c),
{
    c == ' ' || c == '\t' || c == '\n' || c == '\r' || c == '\u{b}' || c == '\u{c}'
}

/// The whitespace-separated tokens of `s` from position `i` on, after the
/// partial token `cur` and the complete tokens `out`.
pub open spec fn split_ws_from(
    s: Seq<char>,
    i: int,
    cur: Seq<char>,
    out: Seq<Seq<char>>,
) -> Seq<Seq<char>>
    decreases s.len() - i,
{
    if i < 0 || i >= s.len() {
        if cur.len() > 0 {
            out.push(cur)
        } else {
            out
        }
    } else if is_space(s[i]) {
        if cur.len() > 0 {
            split_ws_from(s, i + 1, Seq::empty(), out.push(cur))
        } else {
            split_ws_from(s, i + 1, cur, out)
        }
    } else {
        split_ws_from(s, i + 1, cur.push(s[i]), out)
    }
}

/// The whitespace-separated tokens of `s`: the maximal runs of non-whitespace
/// characters, in order.
pub open spec fn split_ws(s: Seq<char>) -> Seq<Seq<char>> {
    split_ws_from(s, 0, Seq::empty(), Seq::empty())
}

/// Splits the caller-supplied extra arguments on whitespace, with no shell
/// quoting: each maximal run of non-whitespace characters is one argument.
pub fn split_whitespace_args(s: &str) -> (r: Vec<String>)
    ensures
        r.deep_view() == split_ws(s@),
{
    let n = s.unicode_len();
    let mut out: Vec<String> = Vec::new();
    proof {
        assert(out.deep_view() =~= Seq::<Seq<char>>::empty());
        assert(s@.subrange(0, 0) =~= Seq::<char>::empty());
    }
    let mut start: usize = 0;
    let mut i: usize = 0;
    while i < n
        invariant
            n == s@.len(),
            0 <= start <= i <= n,
            forall|m: int| start <= m < i ==> !is_space(s@[m]),
            split_ws(s@) == split_ws_from(
                s@,
                i as int,
                s@.subrange(start as int, i as int),
                out.deep_view(),
            ),
        decreases n - i,
    {
        let ghost cur = s@.subrange(start as int, i as int);
        let ghost old_out = out.deep_view();
        let c = s.get_char(i);
        if is_space_char(c) {
            if i > start {
                let tok = s.substring_char(start, i);
                out.push(tok.to_owned());
                proof {
                    assert(out.deep_view() =~= old_out.push(cur));
                    assert(split_ws_from(s@, i as int, cur, old_out) == split_ws_from(
                        s@,
                        i as int + 1,
                        Seq::<char>::empty(),
                        old_out.push(cur),
                    ));
                }
            } else {
                proof {
                    assert(cur =~= Seq::<char>::empty());
                    assert(split_ws_from(s@, i as int, cur, old_out) == split_ws_from(
                        s@,
                        i as int + 1,
                        cur,
                        old_out,
                    ));
                }
            }
            start = i + 1;
            proof {
                assert(s@.subrange(i as int + 1, i as int + 1) =~= Seq::<char>::empty());
            }
        } else {
            proof {
                assert(s@.subrange(start as int, i as int + 1) =~= cur.push(s@[i as int]));
                assert(split_ws_from(s@, i as int, cur, old_out) == split_ws_from(
                    s@,
                    i as int + 1,
                    cur.push(s@[i as int]),
                    old_out,
                ));
            }
        }
        i += 1;
    }
    if i > start {
        let ghost cur = s@.subrange(start as int, i as int);
        let ghost old_out = out.deep_view();
        let tok = s.substring_char(start, n);
        out.push(tok.to_owned());
        proof {
            assert(out.deep_view() =~= old_out.push(cur));
        }
    }
    out
}

/// The canonical URL of the playlist with the given identifier.
pub fn playlist_url(playlist_id: &str) -> (r: String)
    ensures
        r@ == "https://www.youtube.com/playlist?list="@ + playlist_id@,
{
    String::from_str("https://www.youtube.com/playlist?list=").concat(playlist_id)
}

/// The canonical URL of the single item with the given identifier.
pub fn watch_url(id: &str) -> (r: String)
    ensures
        r@ == "https://www.youtube.com/watch?v="@ + id@,
{
    String::from_str("https://www.youtube.com/watch?v=").concat(id)
}

/// One item URL per missing identifier, in fetch order: the lines fed to the
/// downloader's input stream in batch mode.
pub fn batch_urls(missing: &Vec<String>) -> (r: Vec<String>)
    ensures
        r.deep_view().len() == missing.deep_view().len(),
        forall|i: int|
            0 <= i < missing.deep_view().len() ==> #[trigger] r.deep_view()[i]
                == "https://www.youtube.com/watch?v="@ + missing.deep_view()[i],
{
    let mut r: Vec<String> = Vec::new();
    let mut i: usize = 0;
    while i < missing.len()
        invariant
            0 <= i <= missing.len(),
            r.deep_view().len() == i,
            forall|m: int|
                0 <= m < i ==> #[trigger] r.deep_view()[m] == "https://www.youtube.com/watch?v="@
                    + missing.deep_view()[m],
        decreases missing.len() - i,
    {
        let ghost old_r = r.deep_view();
        let u = watch_url(missing[i].as_str());
        let ghost uv = u@;
        r.push(u);
        proof {
            assert(r.deep_view() =~= old_r.push(uv));
        }
        i += 1;
    }
    r
}

/// The downloader's arguments in query mode: flat playlist, structured
/// output, against the canonical playlist URL.
pub open spec fn fetch_args_spec(playlist_id: Seq<char>) -> Seq<Seq<char>> {
    seq!["--flat-playlist"@, "-J"@, "https://www.youtube.com/playlist?list="@ + playlist_id]
}

/// Builds the downloader's query-mode argument list for one playlist.
pub fn yt_dlp_fetch_args(playlist_id: &str) -> (r: Vec<String>)
    ensures
        r.deep_view() == fetch_args_spec(playlist_id@),
{
    let mut r: Vec<String> = Vec::new();
    r.push(String::from_str("--flat-playlist"));
    r.push(String::from_str("-J"));
    r.push(playlist_url(playlist_id));
    proof {
        assert(r.deep_view() =~= fetch_args_spec(playlist_id@));
    }
    r
}

/// The downloader's arguments in batch mode: URLs on its input stream, output
/// named by title and bracketed identifier, audio extracted, then the
/// caller's whitespace-split extra arguments.
pub open spec fn batch_args_spec(extra: Seq<char>) -> Seq<Seq<char>> {
    seq!["--batch-file"@, "-"@, "-o"@, "%(title)s [%(id)s].%(ext)s"@, "-x"@] + split_ws(extra)
}

/// Builds the downloader's batch-mode argument list.
pub fn yt_dlp_batch_args(extra: &str) -> (r: Vec<String>)
    ensures
        r.deep_view() == batch_args_spec(extra@),
{
    let mut r: Vec<String> = Vec::new();
    r.push(String::from_str("--batch-file"));
    r.push(String::from_str("-"));
    r.push(String::from_str("-o"));
    r.push(String::from_str("%(title)s [%(id)s].%(ext)s"));
    r.push(String::from_str("-x"));
    let mut extra_args = split_whitespace_args(extra);
    let ghost base = r.deep_view();
    let ghost toks = extra_args.deep_view();
    r.append(&mut extra_args);
    proof {
        assert(r.deep_view() =~= base + toks);
        assert(base =~= seq![
            "--batch-file"@,
            "-"@,
            "-o"@,
            "%(title)s [%(id)s].%(ext)s"@,
            "-x"@,
        ]);
    }
    r
}

/// The player's arguments: video disabled, optional shuffle, the caller's
/// whitespace-split extra arguments, then the cache directory itself.
pub open spec fn mpv_args_spec(shuffle: bool, extra: Seq<char>) -> Seq<Seq<char>> {
    (seq!["--no-video"@] + (if shuffle {
        seq!["--shuffle"@]
    } else {
        Seq::<Seq<char>>::empty()
    }) + split_ws(extra)).push("."@)
}

/// Builds the player's argument list.
pub fn mpv_args(shuffle: bool, extra: &str) -> (r: Vec<String>)
    ensures
        r.deep_view() == mpv_args_spec(shuffle, extra@),
{
    let mut r: Vec<String> = Vec::new();
    r.push(String::from_str("--no-video"));
    if shuffle {
        r.push(String::from_str("--shuffle"));
    }
    let ghost base = r.deep_view();
    proof {
        assert(base =~= seq!["--no-video"@] + (if shuffle {
            seq!["--shuffle"@]
        } else {
            Seq::<Seq<char>>::empty()
        }));
    }
    let mut extra_args = split_whitespace_args(extra);
    let ghost toks = extra_args.deep_view();
    r.append(&mut extra_args);
    proof {
        assert(r.deep_view() =~= base + toks);
    }
    r.push(String::from_str("."));
    proof {
        assert(r.deep_view() =~= (base + toks).push("."@));
    }
    r
}

} // verus!
