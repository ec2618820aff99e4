//! Where the identifiers of Spotify tracks stand in texts.
use vstd::prelude::*;

verus! {

/// The ASCII letters and digits.
pub open spec fn is_id_char(c: char) -> bool {
    ||| 'A' <= c <= 'Z'
    ||| 'a' <= c <= 'z'
    ||| '0' <= c <= '9'
}

/// Whether a text is an identifier: ASCII letters and digits, at least one.
pub open spec fn is_id(s: Seq<char>) -> bool {
    s.len() > 0 && forall|i: int| 0 <= i < s.len() ==> is_id_char(#[trigger] s[i])
}

/// Whether `part` stands in `s`, its characters one after the other.
pub open spec fn is_part(part: Seq<char>, s: Seq<char>) -> bool {
    exists|i: int, j: int| 0 <= i <= j <= s.len() && part == #[trigger] s.subrange(i, j)
}

/// The number of letters and digits that `s` begins with.
pub open spec fn id_span(s: Seq<char>) -> nat
    decreases s.len(),
{
    if s.len() == 0 || !is_id_char(s.first()) {
        0
    } else {
        1 + id_span(s.drop_first())
    }
}

/// The number of letters and digits that `s` ends with.
pub open spec fn id_tail(s: Seq<char>) -> nat
    decreases s.len(),
{
    if s.len() == 0 || !is_id_char(s.last()) {
        0
    } else {
        1 + id_tail(s.drop_last())
    }
}

/// The first of two texts that may be missing, the second where the first is.
pub open spec fn either(first: Option<Seq<char>>, second: Option<Seq<char>>) -> Option<Seq<char>> {
    match first {
        Some(text) => Some(text),
        None => second,
    }
}

/// The identifier, as long as it can be, that comes at once behind `prefix`,
/// with which `s` has to begin.
pub open spec fn id_behind(s: Seq<char>, prefix: Seq<char>) -> Option<Seq<char>> {
    let rest = s.skip(prefix.len() as int);
    if prefix.is_prefix_of(s) && id_span(rest) > 0 {
        Some(rest.take(id_span(rest) as int))
    } else {
        None
    }
}

/// The identifier behind the first `a` or `b` in `s` that has one behind it.
pub open spec fn first_id_behind(s: Seq<char>, a: Seq<char>, b: Seq<char>) -> Option<Seq<char>>
    decreases s.len(),
{
    either(
        id_behind(s, a),
        either(
            id_behind(s, b),
            if s.len() == 0 {
                None
            } else {
                first_id_behind(s.drop_first(), a, b)
            },
        ),
    )
}

/// The identifier in a Spotify URI.
pub open spec fn uri_id(s: Seq<char>) -> Option<Seq<char>> {
    first_id_behind(s, "spotify:track:"@, "spotify:track:"@)
}

/// The identifier in the address of a track.
pub open spec fn address_id(s: Seq<char>) -> Option<Seq<char>> {
    first_id_behind(s, "http://open.spotify.com/track/"@, "https://open.spotify.com/track/"@)
}

/// The identifier at the end of the path of a track.
pub open spec fn path_id(s: Seq<char>) -> Option<Seq<char>> {
    let start = s.len() - id_tail(s);
    if id_tail(s) > 0 && "/track/"@.is_suffix_of(s.take(start)) {
        Some(s.skip(start))
    } else {
        None
    }
}

/// The identifier of a Spotify track that a text holds: in a Spotify URI, else
/// in an address, else at the end of a path.
pub open spec fn track_id_in(value: Seq<char>) -> Option<Seq<char>> {
    either(uri_id(value), either(address_id(value), path_id(value)))
}

pub proof fn lemma_id_span(s: Seq<char>)
    ensures
        id_span(s) <= s.len(),
        id_span(s) > 0 ==> is_id(s.take(id_span(s) as int)),
    decreases s.len(),
{
    if s.len() > 0 && is_id_char(s.first()) {
        let rest = s.drop_first();
        let n = id_span(s) as int;
        lemma_id_span(rest);
        assert forall|i: int| 0 <= i < n implies is_id_char(#[trigger] s.take(n)[i]) by {
            if i > 0 {
                assert(rest.take(n - 1)[i - 1] == s.take(n)[i]);
            }
        }
    }
}

pub proof fn lemma_id_tail(s: Seq<char>)
    ensures
        id_tail(s) <= s.len(),
        id_tail(s) > 0 ==> is_id(s.skip(s.len() - id_tail(s))),
    decreases s.len(),
{
    if s.len() > 0 && is_id_char(s.last()) {
        let rest = s.drop_last();
        let n = id_tail(s) as int;
        lemma_id_tail(rest);
        let id = s.skip(s.len() - n);
        assert forall|i: int| 0 <= i < n implies is_id_char(#[trigger] id[i]) by {
            if i < n - 1 {
                assert(rest.skip(rest.len() - (n - 1))[i] == id[i]);
            }
        }
    }
}

/// An identifier is all letters and digits.
proof fn lemma_id_span_whole(id: Seq<char>)
    requires
        forall|i: int| 0 <= i < id.len() ==> is_id_char(#[trigger] id[i]),
    ensures
        id_span(id) == id.len(),
    decreases id.len(),
{
    if id.len() > 0 {
        let rest = id.drop_first();
        assert(is_id_char(id[0]));
        assert forall|i: int| 0 <= i < rest.len() implies is_id_char(#[trigger] rest[i]) by {
            assert(is_id_char(id[i + 1]));
        }
        lemma_id_span_whole(rest);
    }
}

/// How many letters and digits a text ends with.
pub proof fn lemma_id_tail_is(s: Seq<char>, n: int)
    requires
        0 <= n <= s.len(),
        forall|i: int| s.len() - n <= i < s.len() ==> is_id_char(#[trigger] s[i]),
        n < s.len() ==> !is_id_char(s[s.len() - n - 1]),
    ensures
        id_tail(s) == n,
    decreases s.len(),
{
    if n > 0 {
        let rest = s.drop_last();
        assert(is_id_char(s[s.len() - 1]));
        assert forall|i: int| rest.len() - (n - 1) <= i < rest.len() implies is_id_char(
            #[trigger] rest[i],
        ) by {
            assert(is_id_char(s[i]));
        }
        lemma_id_tail_is(rest, n - 1);
    }
}

proof fn lemma_id_behind(s: Seq<char>, prefix: Seq<char>)
    ensures
        id_behind(s, prefix) matches Some(id) ==> is_id(id) && is_part(id, s),
{
    let rest = s.skip(prefix.len() as int);
    if id_behind(s, prefix) is Some {
        lemma_id_span(rest);
        let n = prefix.len() as int;
        let m = id_span(rest) as int;
        assert(rest.take(m) =~= s.subrange(n, n + m));
    }
}

proof fn lemma_first_id_behind(s: Seq<char>, a: Seq<char>, b: Seq<char>)
    ensures
        first_id_behind(s, a, b) matches Some(id) ==> is_id(id) && is_part(id, s),
    decreases s.len(),
{
    lemma_id_behind(s, a);
    lemma_id_behind(s, b);
    if s.len() > 0 {
        let rest = s.drop_first();
        lemma_first_id_behind(rest, a, b);
        match first_id_behind(rest, a, b) {
            Some(id) => {
                let (i, j): (int, int) = choose|i: int, j: int|
                    0 <= i <= j <= rest.len() && id == #[trigger] rest.subrange(i, j);
                assert(rest.subrange(i, j) =~= s.subrange(i + 1, j + 1));
            },
            None => {},
        }
    }
}

/// The identifier of a track is made of ASCII letters and digits, at least one,
/// and is a part of the text that it was found in.
pub proof fn law_track_id_is_part(value: Seq<char>)
    ensures
        track_id_in(value) matches Some(id) ==> is_id(id) && is_part(id, value),
{
    lemma_first_id_behind(value, "spotify:track:"@, "spotify:track:"@);
    lemma_first_id_behind(
        value,
        "http://open.spotify.com/track/"@,
        "https://open.spotify.com/track/"@,
    );
    lemma_id_tail(value);
    let start = value.len() - id_tail(value);
    assert(value.skip(start) =~= value.subrange(start, value.len() as int));
}

/// An identifier behind a prefix is found.
proof fn lemma_id_behind_is(prefix: Seq<char>, id: Seq<char>)
    requires
        is_id(id),
    ensures
        id_behind(prefix + id, prefix) == Some(id),
{
    let s = prefix + id;
    assert(s.skip(prefix.len() as int) =~= id);
    lemma_id_span_whole(id);
    assert(id.take(id.len() as int) =~= id);
    assert(prefix =~= s.subrange(0, prefix.len() as int));
}

/// Without the character that stands at `k` in both prefixes no identifier is
/// behind them.
proof fn lemma_none_behind(s: Seq<char>, a: Seq<char>, b: Seq<char>, j: int, k: int, c: char)
    requires
        0 <= j < a.len(),
        0 <= k < b.len(),
        a[j] == c,
        b[k] == c,
        forall|i: int| j <= i < s.len() ==> s[i] != c,
        forall|i: int| k <= i < s.len() ==> s[i] != c,
    ensures
        first_id_behind(s, a, b) is None,
    decreases s.len(),
{
    if a.is_prefix_of(s) {
        assert(s.subrange(0, a.len() as int)[j] == s[j]);
    }
    if b.is_prefix_of(s) {
        assert(s.subrange(0, b.len() as int)[k] == s[k]);
    }
    if s.len() > 0 {
        let rest = s.drop_first();
        assert forall|i: int| j <= i < rest.len() implies rest[i] != c by {
            assert(s[i + 1] != c);
        }
        assert forall|i: int| k <= i < rest.len() implies rest[i] != c by {
            assert(s[i + 1] != c);
        }
        lemma_none_behind(rest, a, b, j, k, c);
    }
}

/// A Spotify URI holds its identifier.
pub proof fn law_uri_holds_id(id: Seq<char>)
    requires
        is_id(id),
    ensures
        track_id_in("spotify:track:"@ + id) == Some(id),
{
    lemma_id_behind_is("spotify:track:"@, id);
}

/// An address of a track holds its identifier.
pub proof fn law_address_holds_id(id: Seq<char>)
    requires
        is_id(id),
    ensures
        track_id_in("https://open.spotify.com/track/"@ + id) == Some(id),
        track_id_in("http://open.spotify.com/track/"@ + id) == Some(id),
{
    reveal_strlit("spotify:track:");
    reveal_strlit("http://open.spotify.com/track/");
    reveal_strlit("https://open.spotify.com/track/");
    let uri = "spotify:track:"@;
    let p = "http://open.spotify.com/track/"@;
    let q = "https://open.spotify.com/track/"@;
    let s = p + id;
    let t = q + id;
    lemma_id_behind_is(p, id);
    lemma_id_behind_is(q, id);
    assert forall|i: int| 7 <= i < s.len() implies s[i] != ':' by {
        if i >= p.len() {
            assert(s[i] == id[i - p.len()]);
        } else {
            assert(s[i] == p[i]);
        }
    }
    assert forall|i: int| 7 <= i < t.len() implies t[i] != ':' by {
        if i >= q.len() {
            assert(t[i] == id[i - q.len()]);
        } else {
            assert(t[i] == q[i]);
        }
    }
    lemma_none_behind(s, uri, uri, 7, 7, ':');
    lemma_none_behind(t, uri, uri, 7, 7, ':');
    assert(t.subrange(0, p.len() as int)[4] == 's');
    assert(id_behind(t, p) is None);
}

/// A path of a track holds its identifier.
pub proof fn law_path_holds_id(id: Seq<char>)
    requires
        is_id(id),
    ensures
        track_id_in("/com/spotify/track/"@ + id) == Some(id),
{
    reveal_strlit("spotify:track:");
    reveal_strlit("http://open.spotify.com/track/");
    reveal_strlit("https://open.spotify.com/track/");
    reveal_strlit("/com/spotify/track/");
    reveal_strlit("/track/");
    let uri = "spotify:track:"@;
    let path = "/com/spotify/track/"@;
    let s = path + id;
    assert forall|i: int| 0 <= i < s.len() implies s[i] != ':' by {
        if i >= path.len() {
            assert(s[i] == id[i - path.len()]);
        } else {
            assert(s[i] == path[i]);
        }
    }
    lemma_none_behind(s, uri, uri, 7, 7, ':');
    lemma_none_behind(
        s,
        "http://open.spotify.com/track/"@,
        "https://open.spotify.com/track/"@,
        4,
        5,
        ':',
    );
    assert forall|i: int| path.len() <= i < s.len() implies is_id_char(#[trigger] s[i]) by {
        assert(s[i] == id[i - path.len()]);
    }
    assert(s[path.len() - 1] == '/');
    lemma_id_tail_is(s, id.len() as int);
    assert(s.take(path.len() as int) =~= path);
    assert("/track/"@ =~= path.subrange(12, 19));
    assert(s.skip(path.len() as int) =~= id);
}

} // verus!
