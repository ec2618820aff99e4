//! What holds of the player's reports and of the keys of tracks.
use vstd::prelude::*;

use crate::spotify::{FieldsModel, SnapshotError, TrackModel};

verus! {

/// A snapshot says what the fields say. Without a playback status it is an
/// error; without a name there is no track; else every field is that of the
/// track, a text that is missing is empty, and times are microseconds in whole
/// milliseconds, zero only where none is reported or less than one.
pub proof fn law_snapshot_says_what_the_fields_say(f: FieldsModel)
    ensures
        f.playback_status is None ==> crate::spotify::snapshot_in(f) == Err::<
            Option<TrackModel>,
            SnapshotError,
        >(SnapshotError::NoPlaybackStatus),
        f.playback_status is Some ==> crate::spotify::snapshot_in(f) is Ok,
        f.playback_status is Some ==> (crate::spotify::snapshot_in(f)->Ok_0 is Some <==> {
            ||| f.artist matches Some(a) && a.len() > 0
            ||| f.title matches Some(t) && t.len() > 0
        }),
        crate::spotify::snapshot_in(f) matches Ok(Some(t)) ==> {
            &&& Some(t.playback_status) == f.playback_status
            &&& t.track_id == f.track_id
            &&& t.spotify_url == f.spotify_url
            &&& (f.artist matches Some(a) ==> t.artist == a)
            &&& (f.title matches Some(a) ==> t.title == a)
            &&& (f.album matches Some(a) ==> t.album == a)
            &&& (f.artist is None ==> t.artist.len() == 0)
            &&& (f.title is None ==> t.title.len() == 0)
            &&& (f.album is None ==> t.album.len() == 0)
            &&& (f.position_us matches Some(us) ==> 0 <= us - 1000 * t.position_ms < 1000)
            &&& (f.duration_us matches Some(us) ==> 0 <= us - 1000 * t.duration_ms < 1000)
            &&& (f.position_us is None ==> t.position_ms == 0)
            &&& (f.duration_us is None ==> t.duration_ms == 0)
        },
{
}

/// Each reply says its own part: the status reply nothing but the status, the
/// position reply nothing but the position, and the metadata neither of them.
pub proof fn law_replies_speak_for_themselves(
    metadata: Seq<char>,
    status: Seq<char>,
    position: Seq<char>,
    other_metadata: Seq<char>,
    other_status: Seq<char>,
    other_position: Seq<char>,
)
    ensures
        ({
            let f = crate::spotify::fields_in(metadata, status, position);
            let g = crate::spotify::fields_in(metadata, other_status, position);
            let h = crate::spotify::fields_in(metadata, status, other_position);
            let k = crate::spotify::fields_in(other_metadata, status, position);
            &&& g == (FieldsModel { playback_status: g.playback_status, ..f })
            &&& h == (FieldsModel { position_us: h.position_us, ..f })
            &&& k.playback_status == f.playback_status
            &&& k.position_us == f.position_us
        }),
{
}

/// Pausing changes nothing but the playback status: replies that differ only in
/// their status give tracks that differ only in it.
pub proof fn law_pausing_changes_the_status_only(
    metadata: Seq<char>,
    status: Seq<char>,
    other_status: Seq<char>,
    position: Seq<char>,
)
    requires
        crate::reply::status_field(status) is Some,
        crate::reply::status_field(other_status) is Some,
    ensures
        ({
            let a = crate::spotify::snapshot_in(
                crate::spotify::fields_in(metadata, status, position),
            );
            let b = crate::spotify::snapshot_in(
                crate::spotify::fields_in(metadata, other_status, position),
            );
            &&& a is Ok
            &&& b is Ok
            &&& (a->Ok_0 is Some <==> b->Ok_0 is Some)
            &&& (a->Ok_0 is Some ==> b->Ok_0 == Some(
                TrackModel {
                    playback_status: crate::reply::status_field(other_status)->0,
                    ..a->Ok_0->0
                },
            ))
        }),
{
}

proof fn lemma_first_text_at(s: Seq<char>, marks: Seq<Seq<char>>, least: nat, n: int)
    requires
        0 <= n <= s.len(),
        marks.len() > 0,
        forall|i: int| 0 <= i < n ==> !marks[0].is_prefix_of(#[trigger] s.skip(i)),
        crate::reply::text_at(s.skip(n), marks, least) is Some,
    ensures
        crate::reply::first_text(s, marks, least) == crate::reply::text_at(
            s.skip(n),
            marks,
            least,
        ),
    decreases n,
{
    assert(s.skip(0) =~= s);
    if n > 0 {
        let rest = s.drop_first();
        assert(!marks[0].is_prefix_of(s.skip(0)));
        assert forall|i: int| 0 <= i < n - 1 implies !marks[0].is_prefix_of(
            #[trigger] rest.skip(i),
        ) by {
            assert(rest.skip(i) =~= s.skip(i + 1));
        }
        assert(rest.skip(n - 1) =~= s.skip(n));
        lemma_first_text_at(rest, marks, least, n - 1);
    }
}

proof fn lemma_first_digits_at(s: Seq<char>, marks: Seq<Seq<char>>, n: int)
    requires
        0 <= n <= s.len(),
        marks.len() > 0,
        forall|i: int| 0 <= i < n ==> !marks[0].is_prefix_of(#[trigger] s.skip(i)),
        crate::reply::digits_at(s.skip(n), marks) is Some,
    ensures
        crate::reply::first_digits(s, marks) == crate::reply::digits_at(s.skip(n), marks),
    decreases n,
{
    assert(s.skip(0) =~= s);
    if n > 0 {
        let rest = s.drop_first();
        assert(!marks[0].is_prefix_of(s.skip(0)));
        assert forall|i: int| 0 <= i < n - 1 implies !marks[0].is_prefix_of(
            #[trigger] rest.skip(i),
        ) by {
            assert(rest.skip(i) =~= s.skip(i + 1));
        }
        assert(rest.skip(n - 1) =~= s.skip(n));
        lemma_first_digits_at(rest, marks, n - 1);
    }
}

proof fn lemma_missing(s: Seq<char>, marks: Seq<Seq<char>>, least: nat)
    requires
        marks.len() > 0,
        forall|i: int| 0 <= i <= s.len() ==> !marks[0].is_prefix_of(#[trigger] s.skip(i)),
    ensures
        crate::reply::first_text(s, marks, least) is None,
        crate::reply::first_digits(s, marks) is None,
    decreases s.len(),
{
    assert(s.skip(0) =~= s);
    assert(!marks[0].is_prefix_of(s.skip(0)));
    if s.len() > 0 {
        let rest = s.drop_first();
        assert forall|i: int| 0 <= i <= rest.len() implies !marks[0].is_prefix_of(
            #[trigger] rest.skip(i),
        ) by {
            assert(rest.skip(i) =~= s.skip(i + 1));
        }
        lemma_missing(rest, marks, least);
    }
}

/// A quoted text ends at its quotation mark.
proof fn lemma_quoted(mark: Seq<char>, text: Seq<char>, after: Seq<char>, least: nat)
    requires
        !text.contains('"'),
        text.len() >= least,
    ensures
        crate::reply::text_at(mark + text + seq!['"'] + after, seq![mark], least) == Some(text),
{
    let s = mark + text + seq!['"'] + after;
    let n = mark.len() as int;
    assert(mark =~= s.subrange(0, n));
    let rest = s.skip(n);
    assert(rest =~= text + seq!['"'] + after);
    crate::text_laws::law_split_at_first(text, '"', after);
    assert forall|j: int| 0 <= j < text.len() implies rest[j] != '"' by {
        assert(rest[j] == text[j]);
        assert(text.contains(text[j]));
    }
    assert(rest[text.len() as int] == '"');
    crate::text::lemma_span_before_is(rest, '"', text.len() as int);
    assert(rest.take(text.len() as int) =~= text);
}

/// The first entry of a name that the metadata prints is the field of that name,
/// whatever comes before and behind it.
pub proof fn law_first_entry_is_the_field(
    before: Seq<char>,
    name: Seq<char>,
    first_gap: Seq<char>,
    second_gap: Seq<char>,
    text: Seq<char>,
    after: Seq<char>,
    reply: Seq<char>,
)
    requires
        crate::reply::is_gap(first_gap),
        crate::reply::is_gap(second_gap),
        !text.contains('"'),
        reply == before + (name + first_gap + ("variant"@ + second_gap + ("string \""@ + text
            + seq!['"'] + after))),
        forall|i: int| 0 <= i < before.len() ==> !name.is_prefix_of(#[trigger] reply.skip(i)),
    ensures
        name == "string \"mpris:trackid\""@ ==> crate::reply::track_id_field(reply) == Some(text),
        name == "string \"xesam:url\""@ ==> crate::reply::url_field(reply) == Some(text),
        name == "string \"xesam:album\""@ ==> crate::reply::album_field(reply) == Some(text),
        name == "string \"xesam:title\""@ ==> crate::reply::title_field(reply) == Some(text),
{
    reveal_strlit("variant");
    reveal_strlit("string \"");
    let marks = crate::reply::text_entry(name);
    let end = "string \""@ + text + seq!['"'] + after;
    let middle = "variant"@ + second_gap + end;
    let entry = name + first_gap + middle;
    crate::reply::lemma_step(name, first_gap, middle, marks);
    let others = marks.drop_first();
    assert(others =~= seq!["variant"@, "string \""@]);
    crate::reply::lemma_step("variant"@, second_gap, end, others);
    assert(others.drop_first() =~= seq!["string \""@]);
    lemma_quoted("string \""@, text, after, 0);
    assert(reply.skip(before.len() as int) =~= entry);
    lemma_first_text_at(reply, marks, 0, before.len() as int);
}

/// The first artist that the metadata prints is the artist.
pub proof fn law_first_artist_is_the_artist(
    before: Seq<char>,
    gaps: Seq<Seq<char>>,
    text: Seq<char>,
    after: Seq<char>,
    reply: Seq<char>,
)
    requires
        gaps.len() == 4,
        forall|i: int| 0 <= i < 4 ==> crate::reply::is_gap(#[trigger] gaps[i]),
        !text.contains('"'),
        reply == before + ("string \"xesam:artist\""@ + gaps[0] + ("variant"@ + gaps[1] + ("array"@
            + gaps[2] + ("["@ + gaps[3] + ("string \""@ + text + seq!['"'] + after))))),
        forall|i: int|
            0 <= i < before.len() ==> !"string \"xesam:artist\""@.is_prefix_of(
                #[trigger] reply.skip(i),
            ),
    ensures
        crate::reply::artist_field(reply) == Some(text),
{
    reveal_strlit("variant");
    reveal_strlit("array");
    reveal_strlit("[");
    reveal_strlit("string \"");
    let name = "string \"xesam:artist\""@;
    let marks = crate::reply::list_entry(name);
    let e = "string \""@ + text + seq!['"'] + after;
    let d = "["@ + gaps[3] + e;
    let c = "array"@ + gaps[2] + d;
    let b = "variant"@ + gaps[1] + c;
    let a = name + gaps[0] + b;
    assert(crate::reply::is_gap(gaps[0]));
    assert(crate::reply::is_gap(gaps[1]));
    assert(crate::reply::is_gap(gaps[2]));
    assert(crate::reply::is_gap(gaps[3]));
    crate::reply::lemma_step(name, gaps[0], b, marks);
    let m1 = marks.drop_first();
    assert(m1 =~= seq!["variant"@, "array"@, "["@, "string \""@]);
    crate::reply::lemma_step("variant"@, gaps[1], c, m1);
    let m2 = m1.drop_first();
    assert(m2 =~= seq!["array"@, "["@, "string \""@]);
    crate::reply::lemma_step("array"@, gaps[2], d, m2);
    let m3 = m2.drop_first();
    assert(m3 =~= seq!["["@, "string \""@]);
    crate::reply::lemma_step("["@, gaps[3], e, m3);
    assert(m3.drop_first() =~= seq!["string \""@]);
    lemma_quoted("string \""@, text, after, 0);
    assert(reply.skip(before.len() as int) =~= a);
    lemma_first_text_at(reply, marks, 0, before.len() as int);
}

/// The first text that the status reply prints is the playback status.
pub proof fn law_first_text_is_the_status(
    before: Seq<char>,
    gap: Seq<char>,
    text: Seq<char>,
    after: Seq<char>,
    reply: Seq<char>,
)
    requires
        crate::reply::is_gap(gap),
        text.len() > 0,
        !text.contains('"'),
        reply == before + ("variant"@ + gap + ("string \""@ + text + seq!['"'] + after)),
        forall|i: int|
            0 <= i < before.len() ==> !"variant"@.is_prefix_of(#[trigger] reply.skip(i)),
    ensures
        crate::reply::status_field(reply) == Some(text),
{
    reveal_strlit("variant");
    reveal_strlit("string \"");
    let marks = seq!["variant"@, "string \""@];
    let end = "string \""@ + text + seq!['"'] + after;
    crate::reply::lemma_step("variant"@, gap, end, marks);
    assert(marks.drop_first() =~= seq!["string \""@]);
    lemma_quoted("string \""@, text, after, 1);
    assert(reply.skip(before.len() as int) =~= "variant"@ + gap + end);
    lemma_first_text_at(reply, marks, 1, before.len() as int);
}

proof fn lemma_digit_span_is(digits: Seq<char>, after: Seq<char>)
    requires
        crate::digits::all_digits(digits),
        after.len() > 0 ==> !crate::digits::is_digit(after[0]),
    ensures
        crate::reply::digit_span(digits + after) == digits.len(),
    decreases digits.len(),
{
    let s = digits + after;
    if digits.len() > 0 {
        let rest = digits.drop_first();
        assert(crate::digits::is_digit(digits[0]));
        assert forall|i: int| 0 <= i < rest.len() implies crate::digits::is_digit(
            #[trigger] rest[i],
        ) by {
            assert(crate::digits::is_digit(digits[i + 1]));
        }
        lemma_digit_span_is(rest, after);
        assert(s.drop_first() =~= rest + after);
    } else {
        assert(s =~= after);
    }
}

proof fn lemma_digits_behind_nothing(digits: Seq<char>, after: Seq<char>)
    requires
        digits.len() > 0,
        crate::digits::all_digits(digits),
        after.len() > 0 ==> !crate::digits::is_digit(after[0]),
    ensures
        crate::reply::digits_at(digits + after, seq![Seq::empty()]) == Some(digits),
{
    let s = digits + after;
    let none = Seq::<char>::empty();
    assert(none =~= s.subrange(0, 0));
    assert(s.skip(0) =~= s);
    lemma_digit_span_is(digits, after);
    assert(s.take(digits.len() as int) =~= digits);
}

/// The first number that the position reply prints is the position, in
/// microseconds.
pub proof fn law_first_number_is_the_position(
    metadata: Seq<char>,
    status: Seq<char>,
    before: Seq<char>,
    gap: Seq<char>,
    digits: Seq<char>,
    after: Seq<char>,
    reply: Seq<char>,
)
    requires
        crate::reply::is_gap(gap),
        digits.len() > 0,
        crate::digits::all_digits(digits),
        crate::digits::value(digits) <= u64::MAX,
        after.len() > 0 ==> !crate::digits::is_digit(after[0]),
        reply == before + ("int64"@ + gap + (digits + after)),
        forall|i: int|
            0 <= i < before.len() ==> !"int64"@.is_prefix_of(#[trigger] reply.skip(i)),
        crate::reply::digits_end_plainly(reply, crate::reply::position_marks()),
    ensures
        crate::spotify::fields_in(metadata, status, reply).position_us == Some(
            crate::digits::value(digits) as u64,
        ),
{
    let marks = crate::reply::position_marks();
    let end = digits + after;
    assert(crate::digits::is_digit(digits[0]));
    assert(end.first() == digits[0]);
    crate::reply::lemma_step("int64"@, gap, end, marks);
    assert(marks.drop_first() =~= seq![Seq::<char>::empty()]);
    lemma_digits_behind_nothing(digits, after);
    assert(reply.skip(before.len() as int) =~= "int64"@ + gap + end);
    lemma_first_digits_at(reply, marks, before.len() as int);
    crate::text_laws::law_digits_read(digits);
}

/// The first length that the metadata prints is the length, in microseconds.
pub proof fn law_first_length_is_the_length(
    status: Seq<char>,
    position: Seq<char>,
    before: Seq<char>,
    gaps: Seq<Seq<char>>,
    digits: Seq<char>,
    after: Seq<char>,
    reply: Seq<char>,
)
    requires
        gaps.len() == 3,
        forall|i: int| 0 <= i < 3 ==> crate::reply::is_gap(#[trigger] gaps[i]),
        digits.len() > 0,
        crate::digits::all_digits(digits),
        crate::digits::value(digits) <= u64::MAX,
        after.len() > 0 ==> !crate::digits::is_digit(after[0]),
        reply == before + ("string \"mpris:length\""@ + gaps[0] + ("variant"@ + gaps[1] + ("uint64"@
            + gaps[2] + (digits + after)))),
        forall|i: int|
            0 <= i < before.len() ==> !"string \"mpris:length\""@.is_prefix_of(
                #[trigger] reply.skip(i),
            ),
        crate::reply::digits_end_plainly(reply, crate::reply::duration_marks()),
    ensures
        crate::spotify::fields_in(reply, status, position).duration_us == Some(
            crate::digits::value(digits) as u64,
        ),
{
    reveal_strlit("variant");
    reveal_strlit("uint64");
    let name = "string \"mpris:length\""@;
    let marks = crate::reply::duration_marks();
    let d = digits + after;
    let c = "uint64"@ + gaps[2] + d;
    let b = "variant"@ + gaps[1] + c;
    let a = name + gaps[0] + b;
    assert(crate::reply::is_gap(gaps[0]));
    assert(crate::reply::is_gap(gaps[1]));
    assert(crate::reply::is_gap(gaps[2]));
    assert(crate::digits::is_digit(digits[0]));
    assert(d.first() == digits[0]);
    crate::reply::lemma_step(name, gaps[0], b, marks);
    let m1 = marks.drop_first();
    assert(m1 =~= seq!["variant"@, "uint64"@, Seq::<char>::empty()]);
    crate::reply::lemma_step("variant"@, gaps[1], c, m1);
    let m2 = m1.drop_first();
    assert(m2 =~= seq!["uint64"@, Seq::<char>::empty()]);
    crate::reply::lemma_step("uint64"@, gaps[2], d, m2);
    assert(m2.drop_first() =~= seq![Seq::<char>::empty()]);
    lemma_digits_behind_nothing(digits, after);
    assert(reply.skip(before.len() as int) =~= a);
    lemma_first_digits_at(reply, marks, before.len() as int);
    crate::text_laws::law_digits_read(digits);
}

/// A field whose name the reply does not hold is missing.
pub proof fn law_unnamed_field_is_missing(reply: Seq<char>, name: Seq<char>)
    requires
        forall|i: int| 0 <= i <= reply.len() ==> !name.is_prefix_of(#[trigger] reply.skip(i)),
    ensures
        name == "string \"mpris:trackid\""@ ==> crate::reply::track_id_field(reply) is None,
        name == "string \"xesam:url\""@ ==> crate::reply::url_field(reply) is None,
        name == "string \"xesam:album\""@ ==> crate::reply::album_field(reply) is None,
        name == "string \"xesam:title\""@ ==> crate::reply::title_field(reply) is None,
        name == "string \"xesam:artist\""@ ==> crate::reply::artist_field(reply) is None,
        name == "variant"@ ==> crate::reply::status_field(reply) is None,
        name == "string \"mpris:length\""@ ==> crate::reply::first_digits(
            reply,
            crate::reply::duration_marks(),
        ) is None,
        name == "int64"@ ==> crate::reply::first_digits(
            reply,
            crate::reply::position_marks(),
        ) is None,
{
    lemma_missing(reply, crate::reply::text_entry(name), 0);
    lemma_missing(reply, crate::reply::list_entry(name), 0);
    lemma_missing(reply, crate::reply::number_entry(name), 0);
    lemma_missing(reply, seq![name, "string \""@], 1);
    lemma_missing(reply, seq![name, Seq::<char>::empty()], 0);
}

/// Requests for two properties differ only in the name of the property.
pub proof fn law_requests_differ_in_the_property(p: Seq<char>, q: Seq<char>)
    ensures
        crate::spotify::dbus_arguments(p).drop_last() == crate::spotify::dbus_arguments(
            q,
        ).drop_last(),
        crate::spotify::dbus_arguments(p).last() == "string:"@ + p,
{
    assert(crate::spotify::dbus_arguments(p).drop_last() =~= crate::spotify::dbus_arguments(
        q,
    ).drop_last());
}

proof fn lemma_id_at_front(
    s: Seq<char>,
    prefix: Seq<char>,
    id: Seq<char>,
    after: Seq<char>,
)
    requires
        crate::identifier::is_id(id),
        after.len() > 0 ==> !crate::identifier::is_id_char(after[0]),
        s == prefix + id + after,
    ensures
        crate::identifier::id_behind(s, prefix) == Some(id),
{
    let n = prefix.len() as int;
    let rest = s.skip(n);
    assert(rest =~= id + after);
    lemma_id_span_is(id, after);
    assert(rest.take(id.len() as int) =~= id);
    assert(prefix =~= s.subrange(0, n));
}

proof fn lemma_id_behind_first(
    s: Seq<char>,
    n: int,
    id: Seq<char>,
    a: Seq<char>,
    b: Seq<char>,
)
    requires
        0 <= n <= s.len(),
        crate::identifier::id_behind(s.skip(n), a) == Some(id) || (!a.is_prefix_of(s.skip(n))
            && crate::identifier::id_behind(s.skip(n), b) == Some(id)),
        forall|i: int|
            0 <= i < n ==> !a.is_prefix_of(#[trigger] s.skip(i)) && !b.is_prefix_of(s.skip(i)),
    ensures
        crate::identifier::first_id_behind(s, a, b) == Some(id),
    decreases n,
{
    assert(s.skip(0) =~= s);
    if n > 0 {
        let rest = s.drop_first();
        assert(!a.is_prefix_of(s.skip(0)));
        assert forall|i: int| 0 <= i < n - 1 implies !a.is_prefix_of(#[trigger] rest.skip(i))
            && !b.is_prefix_of(rest.skip(i)) by {
            assert(rest.skip(i) =~= s.skip(i + 1));
        }
        assert(rest.skip(n - 1) =~= s.skip(n));
        lemma_id_behind_first(rest, n - 1, id, a, b);
    }
}

proof fn lemma_id_span_is(id: Seq<char>, after: Seq<char>)
    requires
        forall|i: int| 0 <= i < id.len() ==> crate::identifier::is_id_char(#[trigger] id[i]),
        after.len() > 0 ==> !crate::identifier::is_id_char(after[0]),
    ensures
        crate::identifier::id_span(id + after) == id.len(),
    decreases id.len(),
{
    let s = id + after;
    if id.len() > 0 {
        let rest = id.drop_first();
        assert(crate::identifier::is_id_char(id[0]));
        assert forall|i: int| 0 <= i < rest.len() implies crate::identifier::is_id_char(
            #[trigger] rest[i],
        ) by {
            assert(crate::identifier::is_id_char(id[i + 1]));
        }
        lemma_id_span_is(rest, after);
        assert(s.drop_first() =~= rest + after);
    } else {
        assert(s =~= after);
    }
}

/// The identifier behind the first `spotify:track:` of a text is found there, up
/// to the first character that is no letter or digit.
pub proof fn law_uri_is_found(before: Seq<char>, id: Seq<char>, after: Seq<char>)
    requires
        crate::identifier::is_id(id),
        after.len() > 0 ==> !crate::identifier::is_id_char(after[0]),
        forall|i: int|
            0 <= i < before.len() ==> !"spotify:track:"@.is_prefix_of(
                #[trigger] (before + "spotify:track:"@ + id + after).skip(i),
            ),
    ensures
        crate::identifier::track_id_in(before + "spotify:track:"@ + id + after) == Some(id),
{
    let p = "spotify:track:"@;
    let s = before + p + id + after;
    let n = before.len() as int;
    assert(s.skip(n) =~= p + id + after);
    lemma_id_at_front(s.skip(n), p, id, after);
    lemma_id_behind_first(s, n, id, p, p);
}

/// The identifier in the first address of a track is found, where the text holds
/// no Spotify URI with one.
pub proof fn law_address_is_found(
    before: Seq<char>,
    prefix: Seq<char>,
    id: Seq<char>,
    after: Seq<char>,
)
    requires
        crate::identifier::is_id(id),
        prefix == "http://open.spotify.com/track/"@ || prefix == "https://open.spotify.com/track/"@,
        after.len() > 0 ==> !crate::identifier::is_id_char(after[0]),
        crate::identifier::uri_id(before + prefix + id + after) is None,
        forall|i: int|
            0 <= i < before.len() ==> !"http://open.spotify.com/track/"@.is_prefix_of(
                #[trigger] (before + prefix + id + after).skip(i),
            ) && !"https://open.spotify.com/track/"@.is_prefix_of(
                (before + prefix + id + after).skip(i),
            ),
    ensures
        crate::identifier::track_id_in(before + prefix + id + after) == Some(id),
{
    reveal_strlit("http://open.spotify.com/track/");
    reveal_strlit("https://open.spotify.com/track/");
    let a = "http://open.spotify.com/track/"@;
    let b = "https://open.spotify.com/track/"@;
    assert(a[4] == ':');
    assert(b[4] == 's');
    let s = before + prefix + id + after;
    let n = before.len() as int;
    assert(s.skip(n) =~= prefix + id + after);
    lemma_id_at_front(s.skip(n), prefix, id, after);
    if prefix == b && a.is_prefix_of(s.skip(n)) {
        assert(s.skip(n)[4] == b[4]);
        assert(s.skip(n).subrange(0, a.len() as int)[4] == a[4]);
    }
    lemma_id_behind_first(s, n, id, a, b);
}

/// The identifier at the end of a path is found, where the text holds neither a
/// Spotify URI nor an address with one.
pub proof fn law_path_is_found(before: Seq<char>, id: Seq<char>)
    requires
        crate::identifier::is_id(id),
        crate::identifier::uri_id(before + "/track/"@ + id) is None,
        crate::identifier::address_id(before + "/track/"@ + id) is None,
    ensures
        crate::identifier::track_id_in(before + "/track/"@ + id) == Some(id),
{
    reveal_strlit("/track/");
    let path = before + "/track/"@;
    let s = path + id;
    assert forall|i: int| path.len() <= i < s.len() implies crate::identifier::is_id_char(
        #[trigger] s[i],
    ) by {
        assert(s[i] == id[i - path.len()]);
    }
    assert(s[path.len() - 1] == '/');
    crate::identifier::lemma_id_tail_is(s, id.len() as int);
    assert(s.take(path.len() as int) =~= path);
    assert("/track/"@ =~= path.subrange(path.len() - 7, path.len() as int));
    assert(s.skip(path.len() as int) =~= id);
}

proof fn lemma_found_behind(s: Seq<char>, a: Seq<char>, b: Seq<char>)
    ensures
        crate::identifier::first_id_behind(s, a, b) matches Some(id) ==> exists|i: int|
            0 <= i <= s.len() && {
                ||| (a + id).is_prefix_of(#[trigger] s.skip(i))
                ||| (b + id).is_prefix_of(s.skip(i))
            },
    decreases s.len(),
{
    match crate::identifier::first_id_behind(s, a, b) {
        Some(id) => {
            assert(s.skip(0) =~= s);
            if crate::identifier::id_behind(s, a) is Some {
                lemma_behind_prefix(s, a);
                assert((a + id).is_prefix_of(s.skip(0)));
            } else if crate::identifier::id_behind(s, b) is Some {
                lemma_behind_prefix(s, b);
                assert((b + id).is_prefix_of(s.skip(0)));
            } else {
                let rest = s.drop_first();
                lemma_found_behind(rest, a, b);
                let i = choose|i: int|
                    0 <= i <= rest.len() && {
                        ||| (a + id).is_prefix_of(#[trigger] rest.skip(i))
                        ||| (b + id).is_prefix_of(rest.skip(i))
                    };
                assert(rest.skip(i) =~= s.skip(i + 1));
            }
        },
        None => {},
    }
}

proof fn lemma_behind_prefix(s: Seq<char>, p: Seq<char>)
    ensures
        crate::identifier::id_behind(s, p) matches Some(id) ==> (p + id).is_prefix_of(s),
{
    match crate::identifier::id_behind(s, p) {
        Some(id) => {
            let rest = s.skip(p.len() as int);
            crate::identifier::lemma_id_span(rest);
            let n = p.len() + id.len();
            assert(p =~= s.subrange(0, p.len() as int));
            assert(p + id =~= s.subrange(0, n as int));
        },
        None => {},
    }
}

/// An identifier is found only behind one of the four spellings: a Spotify URI,
/// one of two addresses, or the path that the text ends with.
pub proof fn law_identifier_stands_behind_a_spelling(v: Seq<char>)
    ensures
        crate::identifier::track_id_in(v) matches Some(id) ==> {
            ||| exists|i: int|
                0 <= i <= v.len() && {
                    ||| ("spotify:track:"@ + id).is_prefix_of(#[trigger] v.skip(i))
                    ||| ("http://open.spotify.com/track/"@ + id).is_prefix_of(v.skip(i))
                    ||| ("https://open.spotify.com/track/"@ + id).is_prefix_of(v.skip(i))
                }
            ||| ("/track/"@ + id).is_suffix_of(v)
        },
{
    lemma_found_behind(v, "spotify:track:"@, "spotify:track:"@);
    lemma_found_behind(
        v,
        "http://open.spotify.com/track/"@,
        "https://open.spotify.com/track/"@,
    );
    if crate::identifier::path_id(v) is Some {
        crate::identifier::lemma_id_tail(v);
        let start = v.len() - crate::identifier::id_tail(v);
        let id = v.skip(start);
        let p = "/track/"@;
        let head = v.take(start);
        assert(p =~= head.subrange(head.len() - p.len(), head.len() as int));
        assert(p + id =~= v.subrange(v.len() - (p + id).len(), v.len() as int));
    }
}

/// Where the address of a track holds no identifier, the one in its player
/// identifier counts.
pub proof fn law_player_identifier_comes_next(t: TrackModel)
    requires
        t.spotify_url matches Some(url) ==> crate::identifier::track_id_in(url) is None,
    ensures
        t.track_id matches Some(id) ==> crate::spotify::spotify_id(t)
            == crate::identifier::track_id_in(id),
        t.track_id is None ==> crate::spotify::spotify_id(t) is None,
{
}

/// Without a Spotify identifier the player identifier is the key, and without
/// that the normalised names and the length in whole seconds are.
pub proof fn law_key_without_a_spotify_identifier(t: TrackModel)
    requires
        crate::spotify::spotify_id(t) is None,
    ensures
        t.track_id matches Some(id) ==> crate::spotify::key_of(t) == id,
        t.track_id is None ==> exists|seconds: nat|
            {
                &&& 0 <= t.duration_ms - 1000 * seconds < 1000
                &&& crate::spotify::key_of(t) == crate::spotify::normalized(t.artist) + seq!['|']
                    + crate::spotify::normalized(t.title) + seq!['|']
                    + #[trigger] crate::digits::decimal(seconds)
            },
{
    reveal_strlit("|");
    let seconds = t.duration_ms as nat / 1000;
    assert("|"@ =~= seq!['|']);
    if t.track_id is None {
        assert(crate::spotify::key_of(t) =~= crate::spotify::normalized(t.artist) + seq!['|']
            + crate::spotify::normalized(t.title) + seq!['|'] + crate::digits::decimal(seconds));
        assert(0 <= t.duration_ms - 1000 * seconds < 1000);
    }
}

/// The plain key of a track takes no notice of its address: it is the player
/// identifier, or the names and the length.
pub proof fn law_plain_key_ignores_spotify(t: TrackModel, other: TrackModel)
    requires
        other == (TrackModel { spotify_url: other.spotify_url, ..t }),
    ensures
        crate::spotify::legacy_key_of(t) == crate::spotify::legacy_key_of(other),
        t.track_id matches Some(id) ==> crate::spotify::legacy_key_of(t) == id,
        t.track_id is None && crate::spotify::spotify_id(t) is None
            ==> crate::spotify::legacy_key_of(t) == crate::spotify::key_of(t),
{
}

proof fn lemma_last_bar(front: Seq<char>, d: Seq<char>, front2: Seq<char>, e: Seq<char>)
    requires
        crate::digits::all_digits(d),
        crate::digits::all_digits(e),
        front + seq!['|'] + d == front2 + seq!['|'] + e,
    ensures
        front == front2,
        d == e,
{
    let s = front + seq!['|'] + d;
    let t = front2 + seq!['|'] + e;
    if d.len() < e.len() {
        let i = s.len() - d.len() - 1;
        assert(s[i] == '|');
        assert(t[i] == e[i - front2.len() - 1]);
        assert(crate::digits::is_digit(e[i - front2.len() - 1]));
    }
    if e.len() < d.len() {
        let i = t.len() - e.len() - 1;
        assert(t[i] == '|');
        assert(s[i] == d[i - front.len() - 1]);
        assert(crate::digits::is_digit(d[i - front.len() - 1]));
    }
    assert(front =~= s.take(front.len() as int));
    assert(front2 =~= t.take(front2.len() as int));
    assert(d =~= s.skip(front.len() as int + 1));
    assert(e =~= t.skip(front2.len() as int + 1));
}

/// Tracks without identifiers are told apart by the length in whole seconds, by
/// the title and by the artist.
pub proof fn law_names_and_length_tell_tracks_apart(a: TrackModel, b: TrackModel)
    requires
        crate::spotify::spotify_id(a) is None,
        crate::spotify::spotify_id(b) is None,
        a.track_id is None,
        b.track_id is None,
        crate::spotify::key_of(a) == crate::spotify::key_of(b),
    ensures
        a.duration_ms / 1000 == b.duration_ms / 1000,
        crate::spotify::normalized(a.artist) == crate::spotify::normalized(b.artist) ==>
            crate::spotify::normalized(a.title) == crate::spotify::normalized(b.title),
        crate::spotify::normalized(a.title) == crate::spotify::normalized(b.title) ==>
            crate::spotify::normalized(a.artist) == crate::spotify::normalized(b.artist),
{
    reveal_strlit("|");
    assert("|"@ =~= seq!['|']);
    let m = a.duration_ms as nat / 1000;
    let n = b.duration_ms as nat / 1000;
    let (x, y) = (crate::spotify::normalized(a.artist), crate::spotify::normalized(a.title));
    let (u, v) = (crate::spotify::normalized(b.artist), crate::spotify::normalized(b.title));
    crate::text_laws::law_numeral_denotes_its_number(m);
    crate::text_laws::law_numeral_denotes_its_number(n);
    let front = x + seq!['|'] + y;
    let front2 = u + seq!['|'] + v;
    lemma_last_bar(front, crate::digits::decimal(m), front2, crate::digits::decimal(n));
    if x == u {
        assert(y =~= front.skip(x.len() as int + 1));
        assert(v =~= front2.skip(u.len() as int + 1));
    }
    if y == v {
        assert(x =~= front.take(front.len() - y.len() - 1));
        assert(u =~= front2.take(front2.len() - v.len() - 1));
    }
}

/// With a Spotify identifier the key is that identifier, behind `spotify:`,
/// whatever else is known of the track.
pub proof fn law_key_of_a_spotify_track(t: TrackModel, id: Seq<char>)
    requires
        crate::spotify::spotify_id(t) == Some(id),
    ensures
        crate::spotify::key_of(t) == "spotify:"@ + id,
{
}

proof fn lemma_blank_parts(s: Seq<char>)
    ensures
        crate::text::words(crate::text::ascii_folded(crate::text::trim(s))) == crate::text::words(
            crate::text::ascii_folded(s),
        ),
{
    let (a, b) = crate::text_laws::law_trim_splits(s);
    let core = crate::text::trim(s);
    let t = crate::text::ascii_folded(core);
    lemma_words_behind_blanks(a, t);
    lemma_words_before_blanks(a + t, b);
    assert forall|i: int| 0 <= i < s.len() implies crate::text::ascii_folded(s)[i] == (a + t
        + b)[i] by {
        if i < a.len() {
            assert(crate::text::is_white_space(a[i]));
            assert(s[i] == a[i]);
        } else if i < a.len() + core.len() {
            assert(s[i] == core[i - a.len()]);
        } else {
            assert(crate::text::is_white_space(b[i - a.len() - core.len()]));
            assert(s[i] == b[i - a.len() - core.len()]);
        }
    }
    assert(crate::text::ascii_folded(s) =~= a + t + b);
}

proof fn lemma_words_behind_blanks(a: Seq<char>, t: Seq<char>)
    requires
        crate::text_laws::is_blank(a),
    ensures
        crate::text::words(a + t) == crate::text::words(t),
    decreases a.len(),
{
    if a.len() > 0 {
        let rest = a.drop_first();
        assert(crate::text::is_white_space(a[0]));
        assert forall|i: int| 0 <= i < rest.len() implies crate::text::is_white_space(
            #[trigger] rest[i],
        ) by {
            assert(crate::text::is_white_space(a[i + 1]));
        }
        lemma_words_behind_blanks(rest, t);
        assert((a + t).drop_first() =~= rest + t);
    } else {
        assert(a + t =~= t);
    }
}

proof fn lemma_words_before_blanks(t: Seq<char>, b: Seq<char>)
    requires
        crate::text_laws::is_blank(b),
    ensures
        crate::text::words(t + b) == crate::text::words(t),
{
    if b.len() > 0 {
        let rest = b.drop_first();
        assert(crate::text::is_white_space(b[0]));
        assert forall|i: int| 0 <= i < rest.len() implies crate::text::is_white_space(
            #[trigger] rest[i],
        ) by {
            assert(crate::text::is_white_space(b[i + 1]));
        }
        crate::text_laws::law_white_space_parts_words(t, b[0], rest);
        crate::text_laws::law_word_is_its_word(rest);
        assert(t + seq![b[0]] + rest =~= t + b);
        assert(crate::text::words(t) + crate::text::words(rest) =~= crate::text::words(t));
    } else {
        assert(t + b =~= t);
    }
}

/// Two names of ASCII characters are the same without differences of case and
/// spacing exactly where their words are, but for case.
pub proof fn law_names_are_told_apart_by_their_words(a: Seq<char>, b: Seq<char>)
    requires
        forall|i: int| 0 <= i < a.len() ==> #[trigger] a[i] as int <= 127,
        forall|i: int| 0 <= i < b.len() ==> #[trigger] b[i] as int <= 127,
    ensures
        crate::text::words(crate::spotify::normalized(a)) == crate::text::words(
            crate::text::ascii_folded(a),
        ),
        crate::spotify::normalized(a) == crate::spotify::normalized(b) <==> crate::text::words(
            crate::text::ascii_folded(a),
        ) == crate::text::words(crate::text::ascii_folded(b)),
{
    lemma_normalized_words(a);
    lemma_normalized_words(b);
}

proof fn lemma_normalized_words(a: Seq<char>)
    requires
        forall|i: int| 0 <= i < a.len() ==> #[trigger] a[i] as int <= 127,
    ensures
        crate::text::words(crate::spotify::normalized(a)) == crate::text::words(
            crate::text::ascii_folded(a),
        ),
        crate::spotify::normalized(a) == crate::text::join(
            crate::text::words(crate::text::ascii_folded(a)),
            " "@,
        ),
{
    let (x, y) = crate::text_laws::law_trim_splits(a);
    let core = crate::text::trim(a);
    assert forall|i: int| 0 <= i < core.len() implies #[trigger] core[i] <= '\u{7f}' by {
        assert(core[i] == a[x.len() + i]);
    }
    lemma_blank_parts(a);
    let ws = crate::text::words(crate::text::ascii_folded(a));
    crate::text::law_words_are_words(crate::text::ascii_folded(a));
    crate::text::law_joined_words_read_back(ws);
}

/// The text that is found is that of the first place that has one, and none is
/// found only where no place has one.
pub proof fn law_first_text_is_found(s: Seq<char>, marks: Seq<Seq<char>>, least: nat)
    ensures
        match crate::reply::first_text(s, marks, least) {
            Some(text) => exists|i: int|
                {
                    &&& 0 <= i <= s.len()
                    &&& crate::reply::text_at(#[trigger] s.skip(i), marks, least) == Some(text)
                    &&& forall|j: int|
                        0 <= j < i ==> crate::reply::text_at(#[trigger] s.skip(j), marks, least)
                            is None
                },
            None => forall|j: int|
                0 <= j <= s.len() ==> crate::reply::text_at(#[trigger] s.skip(j), marks, least)
                    is None,
        },
    decreases s.len(),
{
    assert(s.skip(0) =~= s);
    if crate::reply::text_at(s, marks, least) is None && s.len() > 0 {
        let rest = s.drop_first();
        law_first_text_is_found(rest, marks, least);
        assert forall|k: int| 0 <= k <= rest.len() implies #[trigger] rest.skip(k) == s.skip(
            k + 1,
        ) by {
            assert(rest.skip(k) =~= s.skip(k + 1));
        }
        match crate::reply::first_text(s, marks, least) {
            Some(text) => {
                let i = choose|i: int|
                    {
                        &&& 0 <= i <= rest.len()
                        &&& crate::reply::text_at(#[trigger] rest.skip(i), marks, least) == Some(
                            text,
                        )
                        &&& forall|j: int|
                            0 <= j < i ==> crate::reply::text_at(
                                #[trigger] rest.skip(j),
                                marks,
                                least,
                            ) is None
                    };
                assert(rest.skip(i) == s.skip(i + 1));
                assert forall|j: int| 0 <= j < i + 1 implies crate::reply::text_at(
                    #[trigger] s.skip(j),
                    marks,
                    least,
                ) is None by {
                    if j > 0 {
                        assert(rest.skip(j - 1) == s.skip(j));
                    }
                }
            },
            None => {
                assert forall|j: int| 0 <= j <= s.len() implies crate::reply::text_at(
                    #[trigger] s.skip(j),
                    marks,
                    least,
                ) is None by {
                    if j > 0 {
                        assert(rest.skip(j - 1) == s.skip(j));
                    }
                }
            },
        }
    } else if s.len() == 0 {
        assert forall|j: int| 0 <= j <= s.len() implies #[trigger] s.skip(j) == s by {
            assert(s.skip(j) =~= s);
        }
    }
}

/// The digits that are found are those of the first place that has any, and none
/// are found only where no place has any.
pub proof fn law_first_digits_are_found(s: Seq<char>, marks: Seq<Seq<char>>)
    ensures
        match crate::reply::first_digits(s, marks) {
            Some(digits) => exists|i: int|
                {
                    &&& 0 <= i <= s.len()
                    &&& crate::reply::digits_at(#[trigger] s.skip(i), marks) == Some(digits)
                    &&& forall|j: int|
                        0 <= j < i ==> crate::reply::digits_at(#[trigger] s.skip(j), marks) is None
                },
            None => forall|j: int|
                0 <= j <= s.len() ==> crate::reply::digits_at(#[trigger] s.skip(j), marks) is None,
        },
    decreases s.len(),
{
    assert(s.skip(0) =~= s);
    if crate::reply::digits_at(s, marks) is None && s.len() > 0 {
        let rest = s.drop_first();
        law_first_digits_are_found(rest, marks);
        assert forall|k: int| 0 <= k <= rest.len() implies #[trigger] rest.skip(k) == s.skip(
            k + 1,
        ) by {
            assert(rest.skip(k) =~= s.skip(k + 1));
        }
        match crate::reply::first_digits(s, marks) {
            Some(digits) => {
                let i = choose|i: int|
                    {
                        &&& 0 <= i <= rest.len()
                        &&& crate::reply::digits_at(#[trigger] rest.skip(i), marks) == Some(digits)
                        &&& forall|j: int|
                            0 <= j < i ==> crate::reply::digits_at(#[trigger] rest.skip(j), marks)
                                is None
                    };
                assert(rest.skip(i) == s.skip(i + 1));
                assert forall|j: int| 0 <= j < i + 1 implies crate::reply::digits_at(
                    #[trigger] s.skip(j),
                    marks,
                ) is None by {
                    if j > 0 {
                        assert(rest.skip(j - 1) == s.skip(j));
                    }
                }
            },
            None => {
                assert forall|j: int| 0 <= j <= s.len() implies crate::reply::digits_at(
                    #[trigger] s.skip(j),
                    marks,
                ) is None by {
                    if j > 0 {
                        assert(rest.skip(j - 1) == s.skip(j));
                    }
                }
            },
        }
    } else if s.len() == 0 {
        assert forall|j: int| 0 <= j <= s.len() implies #[trigger] s.skip(j) == s by {
            assert(s.skip(j) =~= s);
        }
    }
}

/// The identifier that is found is that of the first place that has one behind
/// either prefix, and none is found only where no place has one.
pub proof fn law_first_identifier_is_found(s: Seq<char>, a: Seq<char>, b: Seq<char>)
    ensures
        match crate::identifier::first_id_behind(s, a, b) {
            Some(id) => exists|i: int|
                {
                    &&& 0 <= i <= s.len()
                    &&& crate::identifier::id_behind(#[trigger] s.skip(i), a) == Some(id)
                        || crate::identifier::id_behind(s.skip(i), b) == Some(id)
                    &&& forall|j: int|
                        0 <= j < i ==> crate::identifier::id_behind(#[trigger] s.skip(j), a) is None
                            && crate::identifier::id_behind(s.skip(j), b) is None
                },
            None => forall|j: int|
                0 <= j <= s.len() ==> crate::identifier::id_behind(#[trigger] s.skip(j), a) is None
                    && crate::identifier::id_behind(s.skip(j), b) is None,
        },
    decreases s.len(),
{
    assert(s.skip(0) =~= s);
    if crate::identifier::id_behind(s, a) is None && crate::identifier::id_behind(s, b) is None
        && s.len() > 0 {
        let rest = s.drop_first();
        law_first_identifier_is_found(rest, a, b);
        assert forall|k: int| 0 <= k <= rest.len() implies #[trigger] rest.skip(k) == s.skip(
            k + 1,
        ) by {
            assert(rest.skip(k) =~= s.skip(k + 1));
        }
        match crate::identifier::first_id_behind(s, a, b) {
            Some(id) => {
                let i = choose|i: int|
                    {
                        &&& 0 <= i <= rest.len()
                        &&& crate::identifier::id_behind(#[trigger] rest.skip(i), a) == Some(id)
                            || crate::identifier::id_behind(rest.skip(i), b) == Some(id)
                        &&& forall|j: int|
                            0 <= j < i ==> crate::identifier::id_behind(#[trigger] rest.skip(j), a)
                                is None && crate::identifier::id_behind(rest.skip(j), b) is None
                    };
                assert(rest.skip(i) == s.skip(i + 1));
                assert forall|j: int| 0 <= j < i + 1 implies crate::identifier::id_behind(
                    #[trigger] s.skip(j),
                    a,
                ) is None && crate::identifier::id_behind(s.skip(j), b) is None by {
                    if j > 0 {
                        assert(rest.skip(j - 1) == s.skip(j));
                    }
                }
            },
            None => {
                assert forall|j: int| 0 <= j <= s.len() implies crate::identifier::id_behind(
                    #[trigger] s.skip(j),
                    a,
                ) is None && crate::identifier::id_behind(s.skip(j), b) is None by {
                    if j > 0 {
                        assert(rest.skip(j - 1) == s.skip(j));
                    }
                }
            },
        }
    } else if s.len() == 0 {
        assert forall|j: int| 0 <= j <= s.len() implies #[trigger] s.skip(j) == s by {
            assert(s.skip(j) =~= s);
        }
    }
}

/// What comes behind marks comes behind them all: the first one, white space, and
/// the others.
pub proof fn law_marks_stand_in_order(s: Seq<char>, marks: Seq<Seq<char>>)
    requires
        marks.len() > 0,
    ensures
        marks.len() == 1 ==> (crate::reply::behind_marks(s, marks) is Some
            <==> marks[0].is_prefix_of(s)),
        marks.len() == 1 ==> (crate::reply::behind_marks(s, marks) matches Some(rest) ==> s
            == marks[0] + rest),
        marks.len() > 1 ==> (crate::reply::behind_marks(s, marks) matches Some(rest) ==> exists|
            gap: Seq<char>,
            tail: Seq<char>,
        |
            {
                &&& gap.len() > 0
                &&& crate::text_laws::is_blank(gap)
                &&& s == #[trigger] (marks[0] + gap + tail)
                &&& crate::reply::behind_marks(tail, marks.drop_first()) == Some(rest)
            }),
{
    if marks[0].is_prefix_of(s) {
        let n = marks[0].len() as int;
        let rest = s.skip(n);
        assert(marks[0] =~= s.subrange(0, n));
        assert(s =~= marks[0] + rest);
        let tail = crate::text::trim_start(rest);
        let gap = crate::text_laws::lemma_start_split(rest);
        assert(s =~= marks[0] + gap + tail);
    }
}

/// A quoted text ends at the first quotation mark, and has at least its least
/// length.
pub proof fn law_quoted_text_ends_at_its_mark(s: Seq<char>, least: nat)
    ensures
        crate::reply::quoted(s, least) matches Some(text) ==> {
            &&& (text + seq!['"']).is_prefix_of(s)
            &&& !text.contains('"')
            &&& text.len() >= least
        },
        crate::reply::quoted(s, least) is None ==> (forall|text: Seq<char>|
            text.len() >= least && !text.contains('"') ==> !(#[trigger] (text
                + seq!['"'])).is_prefix_of(s)),
{
    let n = crate::text::span_before(s, '"') as int;
    crate::text_laws::law_split_parts(s, '"');
    match crate::reply::quoted(s, least) {
        Some(text) => {
            assert(text + seq!['"'] =~= s.subrange(0, n + 1)) by {
                let b = s.skip(n + 1);
                assert(s == text + seq!['"'] + b);
            }
        },
        None => {
            assert forall|text: Seq<char>|
                text.len() >= least && !text.contains('"') implies !(#[trigger] (text
                + seq!['"'])).is_prefix_of(s) by {
                if (text + seq!['"']).is_prefix_of(s) {
                    let m = text.len() as int;
                    assert forall|j: int| 0 <= j < m implies s[j] != '"' by {
                        assert(s.subrange(0, m + 1)[j] == text[j]);
                        assert(text.contains(text[j]));
                    }
                    assert(s.subrange(0, m + 1)[m] == '"');
                    crate::text::lemma_span_before_is(s, '"', m);
                }
            }
        },
    }
}

} // verus!
