//! Lyrics that are written read back: single lines, and what Spotify serves.
use vstd::prelude::*;

use crate::lrc::LineModel;
use crate::spotify::TrackModel;
use crate::spotify_official::ServedLine;

verus! {

/// The texts that a line of lyrics can hold: trimmed, not empty, on one line.
pub open spec fn is_line_text(s: Seq<char>) -> bool {
    &&& s.len() > 0
    &&& crate::text::trim(s) == s
    &&& !s.contains('\n')
}

/// Whether no served line holds a line feed between its words.
pub open spec fn on_single_lines(lines: Seq<ServedLine>) -> bool {
    forall|i: int|
        0 <= i < lines.len() ==> !crate::text::trim((#[trigger] lines[i]).words).contains('\n')
}

/// No character of a stamp is one of those around it.
proof fn lemma_stamp_chars(s: Seq<char>, c: char)
    requires
        crate::digits::all_digits(s),
        !crate::digits::is_digit(c),
    ensures
        forall|j: int| 0 <= j < s.len() ==> s[j] != c,
{
    assert forall|j: int| 0 <= j < s.len() implies s[j] != c by {
        assert(crate::digits::is_digit(s[j]));
    }
}

proof fn lemma_three_digits(n: nat)
    requires
        n < 1000,
    ensures
        crate::digits::zero_padded(crate::digits::decimal(n), 3).len() == 3,
{
    reveal_with_fuel(crate::digits::decimal, 4);
}

proof fn lemma_three_ascii(s: Seq<char>)
    requires
        s.len() == 3,
        crate::digits::all_digits(s),
    ensures
        crate::lrc::utf8_len(s) == 3,
        crate::lrc::chars_in_bytes(s, 3) == Some(3nat),
{
    reveal_with_fuel(crate::lrc::utf8_len, 4);
    reveal_with_fuel(crate::lrc::chars_in_bytes, 4);
    assert(crate::digits::is_digit(s[0]));
    assert(crate::digits::is_digit(s[1]));
    assert(crate::digits::is_digit(s[2]));
    assert(s.drop_first().first() == s[1]);
    assert(s.drop_first().drop_first().first() == s[2]);
    assert(s.drop_first().drop_first().drop_first().len() == 0);
}

/// The pieces of a stamp.
proof fn lemma_timestamp_parts(m: Seq<char>, s: Seq<char>, f: Seq<char>)
    requires
        crate::digits::all_digits(m),
        crate::digits::all_digits(s),
    ensures
        crate::text::split_once(m + ":"@ + s + "."@ + f, ':') == Some((m, s + "."@ + f)),
        crate::text::split_once(s + "."@ + f, '.') == Some((s, f)),
{
    reveal_strlit(":");
    reveal_strlit(".");
    let whole = m + ":"@ + s + "."@ + f;
    let rest = s + "."@ + f;
    lemma_stamp_chars(m, ':');
    lemma_stamp_chars(s, '.');
    assert(forall|j: int| 0 <= j < m.len() ==> whole[j] == m[j]);
    assert(whole[m.len() as int] == ':');
    crate::text::lemma_span_before_is(whole, ':', m.len() as int);
    assert(whole.take(m.len() as int) =~= m);
    assert(whole.skip(m.len() as int + 1) =~= rest);
    assert(forall|j: int| 0 <= j < s.len() ==> rest[j] == s[j]);
    assert(rest[s.len() as int] == '.');
    crate::text::lemma_span_before_is(rest, '.', s.len() as int);
    assert(rest.take(s.len() as int) =~= s);
    assert(rest.skip(s.len() as int + 1) =~= f);
}

/// A character that is no part of a stamp does not stand in one.
proof fn lemma_not_in_stamp(m: Seq<char>, s: Seq<char>, f: Seq<char>, c: char)
    requires
        crate::digits::all_digits(m),
        crate::digits::all_digits(s),
        crate::digits::all_digits(f),
        !crate::digits::is_digit(c),
        c != ':',
        c != '.',
    ensures
        forall|j: int|
            0 <= j < (m + ":"@ + s + "."@ + f).len() ==> (m + ":"@ + s + "."@ + f)[j] != c,
{
    reveal_strlit(":");
    reveal_strlit(".");
    lemma_stamp_chars(m, c);
    lemma_stamp_chars(s, c);
    lemma_stamp_chars(f, c);
    let whole = m + ":"@ + s + "."@ + f;
    assert forall|j: int| 0 <= j < whole.len() implies whole[j] != c by {
        if j < m.len() {
            assert(whole[j] == m[j]);
        } else if j == m.len() {
            assert(whole[j] == ':');
        } else if j < m.len() + 1 + s.len() {
            assert(whole[j] == s[j - m.len() - 1]);
        } else if j == m.len() + 1 + s.len() {
            assert(whole[j] == '.');
        } else {
            assert(whole[j] == f[j - m.len() - s.len() - 2]);
        }
    }
}

/// Neither a bracket nor a line feed stands in a timestamp.
proof fn lemma_timestamp_chars(t: u64)
    ensures
        forall|j: int|
            0 <= j < crate::spotify_official::timestamp(t).len() ==> {
                &&& crate::spotify_official::timestamp(t)[j] != ']'
                &&& crate::spotify_official::timestamp(t)[j] != '\n'
            },
{
    let m = crate::digits::zero_padded(crate::digits::decimal(t as nat / 60_000), 2);
    let s = crate::digits::zero_padded(crate::digits::decimal(t as nat % 60_000 / 1_000), 2);
    let f = crate::digits::zero_padded(crate::digits::decimal(t as nat % 1_000), 3);
    lemma_padded_digits(t as nat / 60_000, 2);
    lemma_padded_digits(t as nat % 60_000 / 1_000, 2);
    lemma_padded_digits(t as nat % 1_000, 3);
    lemma_not_in_stamp(m, s, f, ']');
    lemma_not_in_stamp(m, s, f, '\n');
}

/// The parts of a line that is written with digits.
proof fn lemma_written_parts(m: Seq<char>, s: Seq<char>, f: Seq<char>, text: Seq<char>)
    requires
        crate::digits::all_digits(m),
        crate::digits::all_digits(s),
        crate::digits::all_digits(f),
        text.len() > 0,
        crate::text::trim(text) == text,
    ensures
        crate::lrc::lrc_parts("["@ + (m + ":"@ + s + "."@ + f) + "]"@ + text) == Some(
            crate::lrc::LrcParts { minutes: m, seconds: s, fraction: f, text },
        ),
{
    reveal_strlit("[");
    reveal_strlit("]");
    let stamp = m + ":"@ + s + "."@ + f;
    let whole = "["@ + stamp + "]"@ + text;
    crate::text::lemma_trim_shape(text);
    assert(whole.first() == '[');
    assert(whole.last() == text.last());
    crate::text::lemma_trimmed_stays(whole);
    let n = stamp.len() as int + 1;
    lemma_not_in_stamp(m, s, f, ']');
    assert forall|j: int| 0 <= j < n implies whole[j] != ']' by {
        if j > 0 {
            assert(whole[j] == stamp[j - 1]);
        }
    }
    assert(whole[n] == ']');
    crate::text::lemma_span_before_is(whole, ']', n);
    assert(whole.skip(n + 1) =~= text);
    assert(whole.take(n).drop_first() =~= stamp);
    lemma_timestamp_parts(m, s, f);
}

proof fn lemma_padded_digits(n: nat, width: nat)
    ensures
        crate::digits::all_digits(crate::digits::zero_padded(crate::digits::decimal(n), width)),
{
    crate::digits::lemma_decimal_digits(n);
    crate::digits::lemma_padded_value(crate::digits::decimal(n), width);
}

/// The minutes, seconds and milliseconds of a timestamp make up its time.
proof fn lemma_timestamp_fields(t: u64)
    ensures
        ({
            let m = crate::digits::zero_padded(crate::digits::decimal(t as nat / 60_000), 2);
            let s = crate::digits::zero_padded(
                crate::digits::decimal(t as nat % 60_000 / 1_000),
                2,
            );
            let f = crate::digits::zero_padded(crate::digits::decimal(t as nat % 1_000), 3);
            &&& crate::digits::u64_value(m) == Some((t / 60_000) as u64)
            &&& crate::digits::u64_value(s) == Some((t % 60_000 / 1_000) as u64)
            &&& !crate::lrc::fraction_is_cut(f)
            &&& crate::lrc::fraction_millis(f) == Some((t % 1_000) as nat)
            &&& crate::lrc::stamp_millis(
                (t / 60_000) as nat,
                (t % 60_000 / 1_000) as nat,
                (t % 1_000) as nat,
            ) == t
        }),
{
    crate::digits::law_read_back((t / 60_000) as u64, 2);
    crate::digits::law_read_back((t % 60_000 / 1_000) as u64, 2);
    crate::digits::law_read_back((t % 1_000) as u64, 3);
    lemma_padded_digits(t as nat % 1_000, 3);
    lemma_three_digits(t as nat % 1_000);
    let f = crate::digits::zero_padded(crate::digits::decimal(t as nat % 1_000), 3);
    lemma_three_ascii(f);
    assert(f.take(3) =~= f);
}

/// A line that is written with its timestamp reads back as that line.
pub proof fn law_stamped_line_reads_back(line: LineModel)
    requires
        line.text.len() > 0,
        crate::text::trim(line.text) == line.text,
    ensures
        !crate::lrc::lrc_line_faults(crate::spotify_official::stamped(line)),
        crate::lrc::lrc_line(crate::spotify_official::stamped(line)) == Some(line),
{
    let t = line.time_ms;
    let m = crate::digits::zero_padded(crate::digits::decimal(t as nat / 60_000), 2);
    let s = crate::digits::zero_padded(crate::digits::decimal(t as nat % 60_000 / 1_000), 2);
    let f = crate::digits::zero_padded(crate::digits::decimal(t as nat % 1_000), 3);
    lemma_padded_digits(t as nat / 60_000, 2);
    lemma_padded_digits(t as nat % 60_000 / 1_000, 2);
    lemma_padded_digits(t as nat % 1_000, 3);
    lemma_written_parts(m, s, f, line.text);
    lemma_timestamp_fields(t);
    crate::text::lemma_trim_again(line.text);
}

/// The weight of a fraction of one, two or three digits, in milliseconds.
pub open spec fn fraction_weight(digits: nat) -> nat {
    if digits == 1 {
        100
    } else if digits == 2 {
        10
    } else {
        1
    }
}

/// The fraction of a second that digits stand for.
proof fn lemma_digit_fraction(f: Seq<char>)
    requires
        1 <= f.len() <= 3,
        crate::digits::all_digits(f),
    ensures
        !crate::lrc::fraction_is_cut(f),
        crate::lrc::fraction_millis(f) == Some(
            crate::digits::value(f) * fraction_weight(f.len()),
        ),
{
    reveal_with_fuel(crate::lrc::utf8_len, 4);
    reveal_with_fuel(crate::digits::value, 4);
    assert(crate::digits::is_digit(f[0]));
    assert(crate::digits::without_plus(f) == f);
    assert(crate::digits::is_digit(f[f.len() - 1]));
    let v = crate::digits::value(f);
    let w = fraction_weight(f.len());
    if f.len() == 1 {
        assert(v * w == v * 100) by (nonlinear_arith)
            requires
                w == 100,
        ;
        assert(f.drop_first().len() == 0);
        assert(f.drop_last().len() == 0);
    } else if f.len() == 2 {
        assert(v * w == v * 10) by (nonlinear_arith)
            requires
                w == 10,
        ;
        assert(f.drop_first().first() == f[1]);
        assert(f.drop_first().drop_first().len() == 0);
        assert(f.drop_last().last() == f[0]);
    } else {
        assert(v * w == v) by (nonlinear_arith)
            requires
                w == 1,
        ;
        lemma_three_ascii(f);
        assert(f.take(3) =~= f);
        assert(crate::digits::is_digit(f[1]));
        assert(f.drop_last().last() == f[1]);
        assert(f.drop_last().drop_last().last() == f[0]);
    }
}

/// A line with minutes, seconds and one to three digits of a fraction stands at
/// the time that they make up.
pub proof fn law_written_line_reads(
    m: Seq<char>,
    s: Seq<char>,
    f: Seq<char>,
    text: Seq<char>,
)
    requires
        m.len() > 0,
        s.len() > 0,
        1 <= f.len() <= 3,
        crate::digits::all_digits(m),
        crate::digits::all_digits(s),
        crate::digits::all_digits(f),
        text.len() > 0,
        crate::text::trim(text) == text,
        crate::lrc::stamp_millis(
            crate::digits::value(m),
            crate::digits::value(s),
            crate::digits::value(f) * fraction_weight(f.len()),
        ) <= u64::MAX,
    ensures
        ({
            let line = "["@ + (m + ":"@ + s + "."@ + f) + "]"@ + text;
            let time = crate::lrc::stamp_millis(
                crate::digits::value(m),
                crate::digits::value(s),
                crate::digits::value(f) * fraction_weight(f.len()),
            );
            &&& !crate::lrc::lrc_line_faults(line)
            &&& crate::lrc::lrc_line(line) == Some(LineModel { time_ms: time as u64, text })
        }),
{
    lemma_written_parts(m, s, f, text);
    lemma_digit_fraction(f);
    crate::text::lemma_trim_again(text);
    assert(crate::digits::is_digit(m[0]));
    assert(crate::digits::is_digit(s[0]));
    assert(crate::digits::without_plus(m) == m);
    assert(crate::digits::without_plus(s) == s);
}

/// Lines that are joined by line feeds are the lines of the joined text.
pub proof fn law_joined_lines_read_back(parts: Seq<Seq<char>>)
    requires
        forall|i: int| 0 <= i < parts.len() ==> is_line_text(#[trigger] parts[i]),
    ensures
        crate::text::lines(crate::text::join(parts, "\n"@)) == parts,
    decreases parts.len(),
{
    reveal_strlit("\n");
    let sep = "\n"@;
    let whole = crate::text::join(parts, sep);
    if parts.len() == 0 {
        assert(crate::text::lines(whole) =~= parts);
    } else {
        let p = parts[0];
        assert(is_line_text(p));
        crate::text::lemma_trim_shape(p);
        assert forall|j: int| 0 <= j < p.len() implies p[j] != '\n' by {
            if p[j] == '\n' {
                assert(p.contains('\n'));
            }
        }
        if parts.len() == 1 {
            crate::text::lemma_span_before_is(whole, '\n', p.len() as int);
            assert(crate::text::lines(whole) =~= parts);
        } else {
            let rest = parts.drop_first();
            assert forall|i: int| 0 <= i < rest.len() implies is_line_text(#[trigger] rest[i]) by {
                assert(is_line_text(parts[i + 1]));
            }
            law_joined_lines_read_back(rest);
            crate::text::lemma_join_front(parts, sep);
            let tail = crate::text::join(rest, sep);
            assert(whole == p + sep + tail);
            assert forall|j: int| 0 <= j < p.len() implies whole[j] != '\n' by {
                assert(whole[j] == p[j]);
            }
            assert(whole[p.len() as int] == '\n');
            crate::text::lemma_span_before_is(whole, '\n', p.len() as int);
            assert(whole.take(p.len() as int) =~= p);
            assert(whole.skip(p.len() as int + 1) =~= tail);
            assert(crate::text::without_return(p) == p);
            assert(crate::text::lines(whole) =~= seq![p] + rest);
            assert(seq![p] + rest =~= parts);
        }
    }
}

/// A line with a time is a line of lyrics.
proof fn lemma_timed_texts(lines: Seq<ServedLine>)
    requires
        on_single_lines(lines),
    ensures
        forall|i: int|
            0 <= i < crate::spotify_official::timed_lines(lines).len() ==> is_line_text(
                (#[trigger] crate::spotify_official::timed_lines(lines)[i]).text,
            ),
        forall|i: int|
            0 <= i < crate::spotify_official::spoken(lines).len() ==> is_line_text(
                #[trigger] crate::spotify_official::spoken(lines)[i],
            ),
    decreases lines.len(),
{
    if lines.len() > 0 {
        let rest = lines.drop_last();
        assert forall|i: int| 0 <= i < rest.len() implies !crate::text::trim(
            (#[trigger] rest[i]).words,
        ).contains('\n') by {
            assert(!crate::text::trim(lines[i].words).contains('\n'));
        }
        lemma_timed_texts(rest);
        let last = lines.last();
        assert(!crate::text::trim(lines[lines.len() - 1].words).contains('\n'));
        crate::text::lemma_trim_again(last.words);
        let before = crate::spotify_official::timed_lines(rest);
        let after = crate::spotify_official::timed_lines(lines);
        assert forall|i: int| 0 <= i < after.len() implies is_line_text(
            (#[trigger] after[i]).text,
        ) by {
            if i < before.len() {
                assert(is_line_text(before[i].text));
            }
        }
        let said = crate::spotify_official::spoken(rest);
        let all = crate::spotify_official::spoken(lines);
        assert forall|i: int| 0 <= i < all.len() implies is_line_text(#[trigger] all[i]) by {
            if i < said.len() {
                assert(is_line_text(said[i]));
            }
        }
    }
}

/// Lines that are written with their timestamps read back as those lines.
proof fn lemma_stamped_all_read_back(ls: Seq<LineModel>)
    requires
        forall|i: int| 0 <= i < ls.len() ==> is_line_text((#[trigger] ls[i]).text),
    ensures
        crate::lrc::lrc_lines(crate::spotify_official::stamped_all(ls)) == ls,
        forall|i: int|
            0 <= i < ls.len() ==> is_line_text(
                #[trigger] crate::spotify_official::stamped_all(ls)[i],
            ) && !crate::lrc::lrc_line_faults(crate::spotify_official::stamped_all(ls)[i]),
    decreases ls.len(),
{
    let texts = crate::spotify_official::stamped_all(ls);
    if ls.len() == 0 {
        assert(crate::lrc::lrc_lines(texts) =~= ls);
    } else {
        let rest = ls.drop_last();
        assert forall|i: int| 0 <= i < rest.len() implies is_line_text(
            (#[trigger] rest[i]).text,
        ) by {
            assert(is_line_text(ls[i].text));
        }
        lemma_stamped_all_read_back(rest);
        assert(texts.drop_last() =~= crate::spotify_official::stamped_all(rest));
        assert(is_line_text(ls[ls.len() - 1].text));
        law_stamped_line_reads_back(ls.last());
        assert(texts.last() == crate::spotify_official::stamped(ls.last()));
        assert(rest.push(ls.last()) =~= ls);
        assert forall|i: int| 0 <= i < ls.len() implies is_line_text(
            #[trigger] texts[i],
        ) && !crate::lrc::lrc_line_faults(texts[i]) by {
            if i < rest.len() {
                assert(texts[i] == crate::spotify_official::stamped_all(rest)[i]);
            } else {
                lemma_stamped_is_line_text(ls.last());
            }
        }
    }
}

proof fn lemma_stamped_is_line_text(line: LineModel)
    requires
        is_line_text(line.text),
    ensures
        is_line_text(crate::spotify_official::stamped(line)),
{
    reveal_strlit("[");
    reveal_strlit("]");
    let ts = crate::spotify_official::timestamp(line.time_ms);
    let whole = crate::spotify_official::stamped(line);
    crate::text::lemma_trim_shape(line.text);
    assert(whole.first() == '[');
    assert(whole.last() == line.text.last());
    crate::text::lemma_trimmed_stays(whole);
    lemma_timestamp_chars(line.time_ms);
    assert forall|j: int| 0 <= j < whole.len() implies whole[j] != '\n' by {
        if 0 < j <= ts.len() {
            assert(whole[j] == ts[j - 1]);
        } else if j > ts.len() + 1 {
            let k = j - ts.len() - 2;
            assert(whole[j] == line.text[k]);
            if line.text[k] == '\n' {
                assert(line.text.contains('\n'));
            }
        }
    }
}

proof fn lemma_line_texts_stay(parts: Seq<Seq<char>>)
    requires
        forall|i: int| 0 <= i < parts.len() ==> is_line_text(#[trigger] parts[i]),
    ensures
        crate::lyrics::trimmed_lines(parts) == parts,
    decreases parts.len(),
{
    if parts.len() == 0 {
        assert(crate::lyrics::trimmed_lines(parts) =~= parts);
    } else {
        let rest = parts.drop_last();
        assert forall|i: int| 0 <= i < rest.len() implies is_line_text(#[trigger] rest[i]) by {
            assert(is_line_text(parts[i]));
        }
        lemma_line_texts_stay(rest);
        assert(is_line_text(parts[parts.len() - 1]));
        assert(rest.push(parts.last()) =~= parts);
    }
}

/// The lyrics that Spotify serves, written as a candidate and read again, are
/// the served lines with a time, in the order of their times, and the served
/// words; and such a candidate always has a meaning. Only words with a line
/// feed between them fall apart.
pub proof fn law_official_lyrics_read_back(track: TrackModel, lines: Seq<ServedLine>)
    requires
        on_single_lines(lines),
    ensures
        crate::lyrics::candidate_fits(crate::spotify_official::official_candidate(track, lines)),
        crate::lyrics::parsed(crate::spotify_official::official_candidate(track, lines))
            == (crate::lyrics::LyricsModel {
            lines: crate::lrc::sorted_lines(crate::spotify_official::timed_lines(lines)),
            plain_lines: crate::spotify_official::spoken(lines),
        }),
{
    let timed = crate::spotify_official::timed_lines(lines);
    let said = crate::spotify_official::spoken(lines);
    lemma_timed_texts(lines);
    lemma_stamped_all_read_back(timed);
    law_joined_lines_read_back(crate::spotify_official::stamped_all(timed));
    law_joined_lines_read_back(said);
    lemma_line_texts_stay(said);
}

} // verus!
