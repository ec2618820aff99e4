//! What holds of lyrics that are read, whatever the lyrics are.
use vstd::prelude::*;

use crate::lrc::LineModel;
use crate::lyrics::{CandidateDuration, CandidateModel};
use crate::spotify::TrackModel;
use crate::spotify_official::{OfficialFault, ServedLine};

verus! {

spec fn digit_millis(f: Seq<char>) -> nat {
    if f.len() == 0 {
        0
    } else if f.len() == 1 {
        100 * crate::digits::value(f)
    } else if f.len() == 2 {
        10 * crate::digits::value(f)
    } else {
        crate::digits::value(f.take(3))
    }
}

proof fn lemma_digit_width(f: Seq<char>)
    requires
        crate::digits::all_digits(f),
    ensures
        crate::lrc::utf8_len(f) == f.len(),
    decreases f.len(),
{
    if f.len() > 0 {
        assert(crate::digits::is_digit(f[0]));
        let rest = f.drop_first();
        assert forall|i: int| 0 <= i < rest.len() implies crate::digits::is_digit(
            #[trigger] rest[i],
        ) by {
            assert(crate::digits::is_digit(f[i + 1]));
        }
        lemma_digit_width(rest);
    }
}

proof fn lemma_small_value(s: Seq<char>)
    requires
        s.len() <= 3,
        crate::digits::all_digits(s),
    ensures
        crate::digits::value(s) < 1000,
        s.len() <= 2 ==> crate::digits::value(s) < 100,
        s.len() <= 1 ==> crate::digits::value(s) < 10,
{
    reveal_with_fuel(crate::digits::value, 5);
    if s.len() > 0 {
        assert(crate::digits::is_digit(s[s.len() - 1]));
        if s.len() > 1 {
            assert(s.drop_last().last() == s[s.len() - 2]);
            assert(crate::digits::is_digit(s[s.len() - 2]));
            if s.len() > 2 {
                assert(s.drop_last().drop_last().last() == s[0]);
                assert(crate::digits::is_digit(s[0]));
            }
        }
    }
}

proof fn lemma_fraction_of_digits(f: Seq<char>)
    requires
        crate::digits::all_digits(f),
    ensures
        !crate::lrc::fraction_is_cut(f),
        crate::lrc::fraction_millis(f) == Some(digit_millis(f)),
        digit_millis(f) < 1000,
{
    lemma_digit_width(f);
    if f.len() == 1 || f.len() == 2 {
        lemma_small_value(f);
        crate::text_laws::law_digits_read(f);
    } else if f.len() >= 3 {
        let t = f.take(3);
        assert(crate::digits::is_digit(f[0]));
        assert(crate::digits::is_digit(f[1]));
        assert(crate::digits::is_digit(f[2]));
        assert(crate::digits::all_digits(t));
        lemma_small_value(t);
        crate::text_laws::law_digits_read(t);
        reveal_with_fuel(crate::lrc::chars_in_bytes, 4);
        assert(f.drop_first().first() == f[1]);
        assert(f.drop_first().drop_first().first() == f[2]);
        assert(crate::lrc::chars_in_bytes(f, 3) == Some(3nat));
    }
}

proof fn lemma_lacks(s: Seq<char>, c: char)
    requires
        crate::digits::all_digits(s),
        !crate::digits::is_digit(c),
    ensures
        !s.contains(c),
{
    if s.contains(c) {
        let i = choose|i: int| 0 <= i < s.len() && s[i] == c;
        assert(crate::digits::is_digit(s[i]));
    }
}

proof fn lemma_stamp_lacks_bracket(m: Seq<char>, s: Seq<char>, f: Seq<char>)
    requires
        crate::digits::all_digits(m),
        crate::digits::all_digits(s),
        crate::digits::all_digits(f),
    ensures
        !(seq!['['] + (m + seq![':'] + s + seq!['.'] + f)).contains(']'),
{
    let stamp = seq!['['] + (m + seq![':'] + s + seq!['.'] + f);
    lemma_lacks(m, ']');
    lemma_lacks(s, ']');
    lemma_lacks(f, ']');
    if stamp.contains(']') {
        let i = choose|i: int| 0 <= i < stamp.len() && stamp[i] == ']';
        if 1 <= i < 1 + m.len() {
            assert(m[i - 1] == ']');
        } else if 2 + m.len() <= i < 2 + m.len() + s.len() {
            assert(s[i - 2 - m.len()] == ']');
        } else if i >= 3 + m.len() + s.len() {
            assert(f[i - 3 - m.len() - s.len()] == ']');
        }
    }
}

proof fn lemma_regrouped(
    before: Seq<char>,
    m: Seq<char>,
    s: Seq<char>,
    f: Seq<char>,
    words: Seq<char>,
    b: Seq<char>,
)
    ensures
        before + (seq!['['] + m + seq![':'] + s + seq!['.'] + f + seq![']'] + (words + b))
            == before + (seq!['['] + (m + seq![':'] + s + seq!['.'] + f) + seq![']'] + words) + b,
        m + seq![':'] + s + seq!['.'] + f == m + seq![':'] + (s + seq!['.'] + f),
{
    let inner = m + seq![':'] + s + seq!['.'] + f;
    assert(inner =~= m + seq![':'] + (s + seq!['.'] + f));
    assert(seq!['['] + m + seq![':'] + s + seq!['.'] + f =~= seq!['['] + inner);
    let stamp = seq!['['] + inner;
    assert(stamp + seq![']'] + (words + b) =~= stamp + seq![']'] + words + b);
    let kept = stamp + seq![']'] + words;
    assert(before + (kept + b) =~= before + kept + b);
}

/// The parts of a stamp of digits and its words.
proof fn lemma_stamp_parts(
    line: Seq<char>,
    before: Seq<char>,
    m: Seq<char>,
    s: Seq<char>,
    f: Seq<char>,
    words: Seq<char>,
    b: Seq<char>,
)
    requires
        crate::text_laws::is_blank(before),
        crate::text_laws::is_blank(b),
        crate::digits::all_digits(m),
        crate::digits::all_digits(s),
        crate::digits::all_digits(f),
        words.len() > 0,
        !crate::text::is_white_space(words.last()),
        line == before + (seq!['['] + (m + seq![':'] + s + seq!['.'] + f) + seq![']'] + words) + b,
    ensures
        crate::lrc::lrc_parts(line) == Some(
            crate::lrc::LrcParts { minutes: m, seconds: s, fraction: f, text: words },
        ),
{
    let inner = m + seq![':'] + s + seq!['.'] + f;
    let stamp = seq!['['] + inner;
    let kept = stamp + seq![']'] + words;
    assert(kept.first() == '[');
    assert(kept.last() == words.last());
    crate::text_laws::law_trim_takes_outer_space(before, kept, b);
    lemma_stamp_lacks_bracket(m, s, f);
    crate::text_laws::law_split_at_first(stamp, ']', words);
    assert(stamp.drop_first() =~= inner);
    lemma_lacks(m, ':');
    lemma_lacks(s, '.');
    let rest = s + seq!['.'] + f;
    lemma_regrouped(before, m, s, f, words, b);
    crate::text_laws::law_split_at_first(m, ':', rest);
    crate::text_laws::law_split_at_first(s, '.', f);
}

/// A line with minutes, seconds and a fraction between brackets, whatever white
/// space stands before it, behind its stamp and behind its words, reads as those
/// words, trimmed, at the time that the numbers make up. Of a fraction, one or two
/// digits are tenths or hundredths, and of more the first three count.
pub proof fn law_stamped_words_read(
    before: Seq<char>,
    m: Seq<char>,
    s: Seq<char>,
    f: Seq<char>,
    text: Seq<char>,
    ms: int,
)
    requires
        crate::text_laws::is_blank(before),
        m.len() > 0,
        s.len() > 0,
        crate::digits::all_digits(m),
        crate::digits::all_digits(s),
        crate::digits::all_digits(f),
        !crate::text_laws::is_blank(text),
        f.len() == 0 ==> ms == 0,
        f.len() == 1 ==> ms == 100 * crate::digits::value(f),
        f.len() == 2 ==> ms == 10 * crate::digits::value(f),
        f.len() >= 3 ==> ms == crate::digits::value(f.take(3)),
        (crate::digits::value(m) * 60 + crate::digits::value(s)) * 1000 + ms <= u64::MAX,
    ensures
        ({
            let line = before + (seq!['['] + m + seq![':'] + s + seq!['.'] + f + seq![']'] + text);
            &&& !crate::lrc::lrc_line_faults(line)
            &&& crate::lrc::lrc_line(line) == Some(
                LineModel {
                    time_ms: ((crate::digits::value(m) * 60 + crate::digits::value(s)) * 1000
                        + ms) as u64,
                    text: crate::text::trim(text),
                },
            )
        }),
{
    let (a, b) = crate::text_laws::law_trim_splits(text);
    let core = crate::text::trim(text);
    lemma_blank(text);
    let words = a + core;
    let line = before + (seq!['['] + m + seq![':'] + s + seq!['.'] + f + seq![']'] + text);
    assert(text == words + b);
    lemma_regrouped(before, m, s, f, words, b);
    assert(words.last() == core.last());
    lemma_stamp_parts(line, before, m, s, f, words, b);
    crate::text_laws::law_digits_read(m);
    crate::text_laws::law_digits_read(s);
    lemma_fraction_of_digits(f);
    assert(words =~= a + core + Seq::<char>::empty());
    crate::text_laws::law_trim_takes_outer_space(a, core, Seq::empty());
    assert(crate::text::trim(words) == core);
}

proof fn lemma_short_number(s: Seq<char>)
    requires
        s.len() <= 3,
    ensures
        crate::digits::u64_value(s) matches Some(n) ==> n < 1000,
        s.len() <= 2 ==> (crate::digits::u64_value(s) matches Some(n) ==> n < 100),
        s.len() <= 1 ==> (crate::digits::u64_value(s) matches Some(n) ==> n < 10),
{
    let d = crate::digits::without_plus(s);
    if crate::digits::all_digits(d) {
        lemma_small_value(d);
    }
}

proof fn lemma_three_bytes(s: Seq<char>)
    ensures
        crate::lrc::chars_in_bytes(s, 3) matches Some(n) ==> n <= 3 && n <= s.len(),
        crate::lrc::utf8_len(s) >= s.len(),
    decreases s.len(),
{
    reveal_with_fuel(crate::lrc::chars_in_bytes, 5);
    if s.len() > 0 {
        lemma_three_bytes(s.drop_first());
    }
}

/// Whether a text is a stamp of numbers and words behind it, at a time.
pub open spec fn is_stamped(
    line: Seq<char>,
    m: Seq<char>,
    s: Seq<char>,
    f: Seq<char>,
    text: Seq<char>,
) -> bool {
    line == seq!['['] + m + seq![':'] + s + seq!['.'] + f + seq![']'] + text
}

proof fn lemma_put_together(
    stamp: Seq<char>,
    m: Seq<char>,
    s: Seq<char>,
    f: Seq<char>,
    text: Seq<char>,
)
    requires
        stamp.len() > 0,
        stamp[0] == '[',
        stamp.drop_first() == m + seq![':'] + (s + seq!['.'] + f),
    ensures
        is_stamped(stamp + seq![']'] + text, m, s, f, text),
{
    assert(stamp =~= seq!['['] + stamp.drop_first());
    assert(stamp =~= seq!['['] + m + seq![':'] + s + seq!['.'] + f);
}

proof fn lemma_parts_shape(line: Seq<char>)
    ensures
        crate::lrc::lrc_parts(line) matches Some(p) ==> is_stamped(
            crate::text::trim(line),
            p.minutes,
            p.seconds,
            p.fraction,
            p.text,
        ),
{
    let whole = crate::text::trim(line);
    match crate::lrc::lrc_parts(line) {
        Some(p) => {
            let (stamp, text) = crate::text::split_once(whole, ']')->0;
            let inner = stamp.drop_first();
            let (m, rest) = crate::text::split_once(inner, ':')->0;
            let (s, f) = crate::text::split_once(rest, '.')->0;
            crate::text_laws::law_split_parts(whole, ']');
            crate::text_laws::law_split_parts(inner, ':');
            crate::text_laws::law_split_parts(rest, '.');
            lemma_put_together(stamp, m, s, f, text);
        },
        None => {},
    }
}

proof fn lemma_fraction_below_a_second(f: Seq<char>)
    ensures
        crate::lrc::fraction_millis(f) matches Some(ms) ==> ms < 1000,
{
    lemma_three_bytes(f);
    if crate::lrc::utf8_len(f) == 1 || crate::lrc::utf8_len(f) == 2 {
        lemma_short_number(f);
    } else if crate::lrc::utf8_len(f) >= 3 {
        match crate::lrc::chars_in_bytes(f, 3) {
            Some(n) => {
                lemma_short_number(f.take(n as int));
            },
            None => {},
        }
    }
}

/// Only a stamp of numbers with words behind it reads as a line: the words are
/// those of the line, and its time is made up of the minutes, the seconds and
/// less than a second.
pub proof fn law_only_stamped_words_read(line: Seq<char>)
    requires
        !crate::lrc::lrc_line_faults(line),
    ensures
        crate::lrc::lrc_line(line) matches Some(l) ==> exists|
            m: Seq<char>,
            s: Seq<char>,
            f: Seq<char>,
            text: Seq<char>,
        |
            {
                &&& #[trigger] is_stamped(crate::text::trim(line), m, s, f, text)
                &&& crate::digits::u64_value(m) is Some
                &&& crate::digits::u64_value(s) is Some
                &&& l.text == crate::text::trim(text)
                &&& l.text.len() > 0
                &&& 0 <= l.time_ms - (crate::digits::u64_value(m)->0 * 60
                    + crate::digits::u64_value(s)->0) * 1000 < 1000
            },
{
    lemma_parts_shape(line);
    match crate::lrc::lrc_parts(line) {
        Some(p) => {
            lemma_fraction_below_a_second(p.fraction);
        },
        None => {},
    }
}

/// The lines of lyrics among texts are those that the single texts read as: one
/// for each text that reads as a line, and in the order of the texts.
pub proof fn law_every_text_reads_on_its_own(ls: Seq<Seq<char>>)
    ensures
        crate::lrc::lrc_lines(ls) == ls.filter(
            |t: Seq<char>| crate::lrc::lrc_line(t) is Some,
        ).map_values(|t: Seq<char>| crate::lrc::lrc_line(t)->0),
    decreases ls.len(),
{
    let reads = |t: Seq<char>| crate::lrc::lrc_line(t) is Some;
    let line = |t: Seq<char>| crate::lrc::lrc_line(t)->0;
    reveal(Seq::filter);
    if ls.len() > 0 {
        law_every_text_reads_on_its_own(ls.drop_last());
        let before = ls.drop_last().filter(reads);
        if reads(ls.last()) {
            assert(before.push(ls.last()).map_values(line) =~= before.map_values(line).push(
                line(ls.last()),
            ));
        }
    } else {
        assert(crate::lrc::lrc_lines(ls) =~= ls.filter(reads).map_values(line));
    }
}

proof fn lemma_lines_at(s: Seq<LineModel>, t: u64)
    ensures
        crate::lrc::lines_at(s, t) == s.filter(|l: LineModel| l.time_ms == t),
    decreases s.len(),
{
    reveal(Seq::filter);
    if s.len() > 0 {
        lemma_lines_at(s.drop_last(), t);
    } else {
        assert(crate::lrc::lines_at(s, t) =~= s.filter(|l: LineModel| l.time_ms == t));
    }
}

/// Reading a candidate loses no line and makes none up: there are as many lines
/// as there are texts that read as one, each of those is among them, at any time
/// `t` the lines come in the order of the texts, and the times never go back.
pub proof fn law_reading_loses_no_line(c: CandidateModel, t: u64)
    ensures
        ({
            let texts = crate::text::lines(c.synced_lyrics);
            let reading = texts.filter(|t: Seq<char>| crate::lrc::lrc_line(t) is Some);
            let read = reading.map_values(|t: Seq<char>| crate::lrc::lrc_line(t)->0);
            let lines = crate::lyrics::parsed(c).lines;
            &&& lines.len() == reading.len()
            &&& lines.filter(|l: LineModel| l.time_ms == t) == read.filter(
                |l: LineModel| l.time_ms == t,
            )
            &&& forall|i: int|
                0 <= i < texts.len() && crate::lrc::lrc_line(#[trigger] texts[i]) is Some
                    ==> lines.contains(crate::lrc::lrc_line(texts[i])->0)
            &&& forall|i: int, j: int|
                0 <= i <= j < lines.len() ==> (#[trigger] lines[i]).time_ms <= (
                #[trigger] lines[j]).time_ms
        }),
{
    let texts = crate::text::lines(c.synced_lyrics);
    let reads = |t: Seq<char>| crate::lrc::lrc_line(t) is Some;
    let line = |t: Seq<char>| crate::lrc::lrc_line(t)->0;
    let reading = texts.filter(reads);
    let read = reading.map_values(line);
    let lines = crate::lyrics::parsed(c).lines;
    law_every_text_reads_on_its_own(texts);
    assert(crate::lrc::lrc_lines(texts) == read);
    crate::lrc::law_sorted_in_order(read);
    crate::lrc::law_sorting_keeps_lines(read, t);
    lemma_lines_at(lines, t);
    lemma_lines_at(read, t);
    assert forall|i: int|
        0 <= i < texts.len() && crate::lrc::lrc_line(
            #[trigger] texts[i],
        ) is Some implies lines.contains(crate::lrc::lrc_line(texts[i])->0) by {
        let x = line(texts[i]);
        assert(reads(texts[i]));
        texts.lemma_filter_contains(reads, i);
        let k = choose|k: int| 0 <= k < reading.len() && reading[k] == texts[i];
        assert(read[k] == x);
        let at = |l: LineModel| l.time_ms == x.time_ms;
        crate::lrc::law_sorting_keeps_lines(read, x.time_ms);
        lemma_lines_at(lines, x.time_ms);
        lemma_lines_at(read, x.time_ms);
        assert(at(read[k]));
        read.lemma_filter_contains(at, k);
        assert(lines.filter(at) == read.filter(at));
        let n = choose|n: int| 0 <= n < lines.filter(at).len() && lines.filter(at)[n] == x;
        lines.lemma_filter_contains_rev(at, x);
    }
}

/// The plain lines are the lines of the text, trimmed, without the blank ones.
pub proof fn law_plain_lines_are_trimmed_lines(c: CandidateModel)
    ensures
        crate::lyrics::parsed(c).plain_lines == crate::text::lines(c.plain_lyrics).map_values(
            |t: Seq<char>| crate::text::trim(t),
        ).filter(|t: Seq<char>| t.len() > 0),
{
    lemma_trimmed_lines(crate::text::lines(c.plain_lyrics));
}

proof fn lemma_trimmed_lines(ls: Seq<Seq<char>>)
    ensures
        crate::lyrics::trimmed_lines(ls) == ls.map_values(
            |t: Seq<char>| crate::text::trim(t),
        ).filter(|t: Seq<char>| t.len() > 0),
    decreases ls.len(),
{
    let trim = |t: Seq<char>| crate::text::trim(t);
    let some = |t: Seq<char>| t.len() > 0;
    reveal(Seq::filter);
    if ls.len() > 0 {
        lemma_trimmed_lines(ls.drop_last());
        assert(ls.map_values(trim).drop_last() =~= ls.drop_last().map_values(trim));
    } else {
        assert(crate::lyrics::trimmed_lines(ls) =~= ls.map_values(trim).filter(some));
    }
}

proof fn lemma_blank(s: Seq<char>)
    ensures
        crate::text::trim(s).len() == 0 <==> crate::text_laws::is_blank(s),
{
    let (a, b) = crate::text_laws::law_trim_splits(s);
    let core = crate::text::trim(s);
    if core.len() == 0 {
        assert(s =~= a + b);
        assert forall|i: int| 0 <= i < s.len() implies crate::text::is_white_space(
            #[trigger] s[i],
        ) by {
            if i < a.len() {
                assert(s[i] == a[i]);
            } else {
                assert(s[i] == b[i - a.len()]);
            }
        }
    } else {
        assert(s[a.len() as int] == core[0]);
    }
}

/// Every served line with a time and words has its own timed line, with that
/// time and those words, in the served order, and there is no other.
pub proof fn law_every_served_line_is_timed(lines: Seq<ServedLine>)
    ensures
        crate::spotify_official::timed_lines(lines) == lines.filter(
            |l: ServedLine|
                l.start_time_ms is Some && crate::digits::u64_value(l.start_time_ms->0) is Some
                    && !crate::text_laws::is_blank(l.words),
        ).map_values(|l: ServedLine|
                LineModel {
                    time_ms: crate::digits::u64_value(l.start_time_ms->0)->0,
                    text: crate::text::trim(l.words),
                }),
    decreases lines.len(),
{
    let has = |l: ServedLine|
                l.start_time_ms is Some && crate::digits::u64_value(l.start_time_ms->0) is Some
                    && !crate::text_laws::is_blank(l.words);
    let to = |l: ServedLine|
                LineModel {
                    time_ms: crate::digits::u64_value(l.start_time_ms->0)->0,
                    text: crate::text::trim(l.words),
                };
    reveal(Seq::filter);
    if lines.len() > 0 {
        law_every_served_line_is_timed(lines.drop_last());
        lemma_blank(lines.last().words);
        let before = lines.drop_last().filter(has);
        if has(lines.last()) {
            assert(before.push(lines.last()).map_values(to) =~= before.map_values(to).push(
                to(lines.last()),
            ));
        }
    } else {
        assert(crate::spotify_official::timed_lines(lines) =~= lines.filter(has).map_values(to));
    }
}

/// The plain lyrics have the words of every served line that is not blank.
pub proof fn law_every_served_line_is_spoken(lines: Seq<ServedLine>)
    ensures
        crate::spotify_official::spoken(lines) == lines.filter(
            |l: ServedLine| !crate::text_laws::is_blank(l.words),
        ).map_values(|l: ServedLine| crate::text::trim(l.words)),
    decreases lines.len(),
{
    let has = |l: ServedLine| !crate::text_laws::is_blank(l.words);
    let to = |l: ServedLine| crate::text::trim(l.words);
    reveal(Seq::filter);
    if lines.len() > 0 {
        law_every_served_line_is_spoken(lines.drop_last());
        lemma_blank(lines.last().words);
        let before = lines.drop_last().filter(has);
        if has(lines.last()) {
            assert(before.push(lines.last()).map_values(to) =~= before.map_values(to).push(
                to(lines.last()),
            ));
        }
    } else {
        assert(crate::spotify_official::spoken(lines) =~= lines.filter(has).map_values(to));
    }
}

/// A timestamp is minutes, two digits of seconds and three of milliseconds that
/// make up its time.
pub proof fn law_timestamp_makes_up_its_time(t: u64) -> (r: (Seq<char>, Seq<char>, Seq<char>))
    ensures
        crate::spotify_official::timestamp(t) == r.0 + seq![':'] + r.1 + seq!['.'] + r.2,
        crate::digits::all_digits(r.0),
        crate::digits::all_digits(r.1),
        crate::digits::all_digits(r.2),
        r.0.len() >= 2,
        r.1.len() == 2,
        r.2.len() == 3,
        crate::digits::value(r.1) < 60,
        (crate::digits::value(r.0) * 60 + crate::digits::value(r.1)) * 1000
            + crate::digits::value(r.2) == t,
        r.0.len() > 2 ==> r.0[0] != '0',
{
    reveal_strlit(":");
    reveal_strlit(".");
    let m = t as nat / 60_000;
    let s = t as nat % 60_000 / 1_000;
    let f = t as nat % 1_000;
    crate::text_laws::law_numeral_denotes_its_number(m);
    crate::text_laws::law_numeral_denotes_its_number(s);
    crate::text_laws::law_numeral_denotes_its_number(f);
    crate::digits::lemma_padded_value(crate::digits::decimal(m), 2);
    crate::digits::lemma_padded_value(crate::digits::decimal(s), 2);
    crate::digits::lemma_padded_value(crate::digits::decimal(f), 3);
    assert(crate::digits::decimal(s).len() <= 2) by {
        reveal_with_fuel(crate::digits::decimal, 3);
    }
    assert(crate::digits::decimal(f).len() <= 3) by {
        reveal_with_fuel(crate::digits::decimal, 4);
    }
    let a = crate::digits::zero_padded(crate::digits::decimal(m), 2);
    let b = crate::digits::zero_padded(crate::digits::decimal(s), 2);
    let c = crate::digits::zero_padded(crate::digits::decimal(f), 3);
    assert(crate::spotify_official::timestamp(t) =~= a + seq![':'] + b + seq!['.'] + c);
    if a.len() > 2 {
        if m == 0 {
            reveal_with_fuel(crate::digits::decimal, 2);
        }
    }
    (a, b, c)
}

/// What Spotify serves becomes a candidate whose synchronised lyrics are, one
/// under the other and in the served order, the stamped words of every served
/// line with a time and words; whose plain lyrics are the words of every line
/// that is not blank; and which is named after the track.
pub proof fn law_official_candidate_keeps_every_line(track: TrackModel, lines: Seq<ServedLine>)
    ensures
        ({
            let c = crate::spotify_official::official_candidate(track, lines);
            let timed = lines.filter(|l: ServedLine|
                l.start_time_ms is Some && crate::digits::u64_value(l.start_time_ms->0) is Some
                    && !crate::text_laws::is_blank(l.words));
            let worded = lines.filter(|l: ServedLine| !crate::text_laws::is_blank(l.words));
            &&& c.synced_lyrics == crate::text::join(
                timed.map_values(
                    |l: ServedLine|
                        seq!['['] + crate::spotify_official::timestamp(crate::digits::u64_value(l.start_time_ms->0)->0)
                            + seq![']'] + crate::text::trim(l.words),
                ),
                seq!['\n'],
            )
            &&& c.plain_lyrics == crate::text::join(
                worded.map_values(|l: ServedLine| crate::text::trim(l.words)),
                seq!['\n'],
            )
            &&& c.track_name == track.title
            &&& c.artist_name == track.artist
            &&& c.album_name == track.album
            &&& c.duration == CandidateDuration::Track(track.duration_ms)
            &&& c.name == "Spotify official"@
            &&& c.id == 0
            &&& !c.instrumental
            &&& c.lyrics_file is None
        }),
{
    reveal_strlit("[");
    reveal_strlit("]");
    reveal_strlit("\n");
    assert("\n"@ =~= seq!['\n']);
    law_every_served_line_is_timed(lines);
    law_every_served_line_is_spoken(lines);
    let timed = lines.filter(|l: ServedLine|
                l.start_time_ms is Some && crate::digits::u64_value(l.start_time_ms->0) is Some
                    && !crate::text_laws::is_blank(l.words));
    let stamp = |l: ServedLine|
        seq!['['] + crate::spotify_official::timestamp(crate::digits::u64_value(l.start_time_ms->0)->0) + seq![']']
            + crate::text::trim(l.words);
    let all = crate::spotify_official::stamped_all(crate::spotify_official::timed_lines(lines));
    assert(all.len() == timed.len());
    assert forall|i: int| 0 <= i < all.len() implies all[i] == timed.map_values(stamp)[i] by {
        let l = crate::spotify_official::timed_lines(lines)[i];
        assert(l.time_ms == crate::digits::u64_value(timed[i].start_time_ms->0)->0);
        assert(l.text == crate::text::trim(timed[i].words));
        assert(all[i] =~= stamp(timed[i]));
    }
    assert(all =~= timed.map_values(stamp));
}

/// Spotify's answer gives a candidate where it has a line that is not blank, and
/// otherwise an error that says whether there were lyrics at all.
pub proof fn law_answer_with_words_gives_lyrics(track: TrackModel, lines: Seq<ServedLine>)
    ensures
        crate::spotify_official::candidate_of_response(track, None) == Err::<
            CandidateModel,
            OfficialFault,
        >(OfficialFault::NoLyrics),
        (exists|i: int|
            0 <= i < lines.len() && !crate::text_laws::is_blank((#[trigger] lines[i]).words))
            ==> crate::spotify_official::candidate_of_response(track, Some(lines)) == Ok::<
            CandidateModel,
            OfficialFault,
        >(crate::spotify_official::official_candidate(track, lines)),
        (forall|i: int|
            0 <= i < lines.len() ==> crate::text_laws::is_blank((#[trigger] lines[i]).words))
            ==> crate::spotify_official::candidate_of_response(track, Some(lines)) == Err::<
            CandidateModel,
            OfficialFault,
        >(OfficialFault::EmptyLyrics),
{
    let has = |l: ServedLine| !crate::text_laws::is_blank(l.words);
    law_every_served_line_is_spoken(lines);
    if exists|i: int|
        0 <= i < lines.len() && !crate::text_laws::is_blank((#[trigger] lines[i]).words) {
        let i = choose|i: int|
            0 <= i < lines.len() && !crate::text_laws::is_blank((#[trigger] lines[i]).words);
        assert(has(lines[i]));
        lines.lemma_filter_contains(has, i);
        assert(lines.filter(has).len() > 0);
    } else {
        if lines.filter(has).len() > 0 {
            lines.lemma_filter_pred(has, 0);
            lines.lemma_filter_contains_rev(has, lines.filter(has)[0]);
            let k = choose|k: int| 0 <= k < lines.len() && lines[k] == lines.filter(has)[0];
            assert(crate::text_laws::is_blank(lines[k].words));
        }
    }
}

/// The title of a candidate without lyrics: artist, track and album, those that
/// are there, with dashes between them, or the identifier where none is.
pub proof fn law_title_names_what_is_there(c: CandidateModel)
    requires
        crate::text_laws::is_blank(c.synced_lyrics),
        crate::text_laws::is_blank(c.plain_lyrics),
    ensures
        ({
            let (a, t, l) = (c.artist_name, c.track_name, c.album_name);
            let title = crate::lyrics::title_of(c);
            &&& a.len() > 0 && t.len() > 0 && l.len() > 0 ==> title == a + " - "@ + t + " - "@ + l
            &&& a.len() > 0 && t.len() > 0 && l.len() == 0 ==> title == a + " - "@ + t
            &&& a.len() > 0 && t.len() == 0 && l.len() > 0 ==> title == a + " - "@ + l
            &&& a.len() == 0 && t.len() > 0 && l.len() > 0 ==> title == t + " - "@ + l
            &&& a.len() > 0 && t.len() == 0 && l.len() == 0 ==> title == a
            &&& a.len() == 0 && t.len() > 0 && l.len() == 0 ==> title == t
            &&& a.len() == 0 && t.len() == 0 && l.len() > 0 ==> title == l
            &&& a.len() == 0 && t.len() == 0 && l.len() == 0 ==> title == "id "@
                + crate::digits::signed_decimal(c.id as int)
        }),
{
    lemma_blank(c.synced_lyrics);
    lemma_blank(c.plain_lyrics);
    let (a, t, l) = (c.artist_name, c.track_name, c.album_name);
    let sep = " - "@;
    let parts = crate::lyrics::title_parts(c);
    let none = Seq::<Seq<char>>::empty();
    if a.len() > 0 && t.len() > 0 && l.len() > 0 {
        assert(parts =~= seq![a] + seq![t] + seq![l]);
        crate::text_laws::law_join_in_two_steps(seq![a] + seq![t], seq![l], sep);
        crate::text_laws::law_join_in_two_steps(seq![a], seq![t], sep);
    } else if a.len() > 0 && t.len() > 0 {
        assert(parts =~= seq![a] + seq![t]);
        crate::text_laws::law_join_in_two_steps(seq![a], seq![t], sep);
    } else if a.len() > 0 && l.len() > 0 {
        assert(parts =~= seq![a] + seq![l]);
        crate::text_laws::law_join_in_two_steps(seq![a], seq![l], sep);
    } else if t.len() > 0 && l.len() > 0 {
        assert(parts =~= seq![t] + seq![l]);
        crate::text_laws::law_join_in_two_steps(seq![t], seq![l], sep);
    } else if a.len() > 0 {
        assert(parts =~= seq![a]);
    } else if t.len() > 0 {
        assert(parts =~= seq![t]);
    } else if l.len() > 0 {
        assert(parts =~= seq![l]);
    } else {
        assert(parts =~= none);
    }
}

/// The title says behind the names which kind of lyrics a candidate has;
/// synchronised ones go first.
pub proof fn law_title_tells_the_lyrics(c: CandidateModel)
    ensures
        ({
            let bare = crate::lyrics::title_of(
                CandidateModel { synced_lyrics: Seq::empty(), plain_lyrics: Seq::empty(), ..c },
            );
            let title = crate::lyrics::title_of(c);
            &&& !crate::text_laws::is_blank(c.synced_lyrics) ==> title == bare + " [synced]"@
            &&& crate::text_laws::is_blank(c.synced_lyrics) && !crate::text_laws::is_blank(
                c.plain_lyrics,
            ) ==> title == bare + " [plain]"@
            &&& crate::text_laws::is_blank(c.synced_lyrics) && crate::text_laws::is_blank(
                c.plain_lyrics,
            ) ==> title == bare
        }),
{
    lemma_blank(c.synced_lyrics);
    lemma_blank(c.plain_lyrics);
    lemma_blank(Seq::empty());
}

spec fn first_places(s: Seq<CandidateModel>) -> Seq<int> {
    Seq::new(s.len(), |i: int| i).filter(
        |i: int| forall|j: int| 0 <= j < i ==> (#[trigger] s[j]).id != s[i].id,
    )
}

proof fn lemma_filter_agrees(s: Seq<int>, p: spec_fn(int) -> bool, q: spec_fn(int) -> bool)
    requires
        forall|i: int| 0 <= i < s.len() ==> p(#[trigger] s[i]) == q(s[i]),
    ensures
        s.filter(p) == s.filter(q),
    decreases s.len(),
{
    reveal(Seq::filter);
    if s.len() > 0 {
        let rest = s.drop_last();
        assert forall|i: int| 0 <= i < rest.len() implies p(#[trigger] rest[i]) == q(rest[i]) by {
            assert(p(s[i]) == q(s[i]));
        }
        lemma_filter_agrees(rest, p, q);
        assert(p(s[s.len() - 1]) == q(s[s.len() - 1]));
    }
}

proof fn lemma_first_places_within(s: Seq<CandidateModel>)
    ensures
        forall|k: int|
            0 <= k < first_places(s).len() ==> 0 <= #[trigger] first_places(s)[k] < s.len(),
{
    let all = Seq::new(s.len(), |i: int| i);
    let p = |i: int| forall|j: int| 0 <= j < i ==> (#[trigger] s[j]).id != s[i].id;
    assert forall|k: int| 0 <= k < first_places(s).len() implies 0
        <= #[trigger] first_places(s)[k] < s.len() by {
        all.lemma_filter_contains_rev(p, all.filter(p)[k]);
    }
}

/// Of the candidates of one identifier the first one stays, and the others go;
/// those that stay keep their order.
pub proof fn law_first_candidates_stay(s: Seq<CandidateModel>)
    ensures
        crate::lyrics::first_of_each_id(s) == Seq::new(s.len(), |i: int| i).filter(
            |i: int| forall|j: int| 0 <= j < i ==> (#[trigger] s[j]).id != s[i].id,
        ).map_values(|i: int| s[i]),
    decreases s.len(),
{
    reveal(Seq::filter);
    let at = |i: int| s[i];
    if s.len() == 0 {
        assert(crate::lyrics::first_of_each_id(s) =~= first_places(s).map_values(at));
    } else {
        let rest = s.drop_last();
        let n = rest.len() as int;
        law_first_candidates_stay(rest);
        lemma_first_places_within(rest);
        let all = Seq::new(s.len(), |i: int| i);
        let p = |i: int| forall|j: int| 0 <= j < i ==> (#[trigger] s[j]).id != s[i].id;
        let q = |i: int| forall|j: int| 0 <= j < i ==> (#[trigger] rest[j]).id != rest[i].id;
        let fewer = Seq::new(rest.len(), |i: int| i);
        assert(all.drop_last() =~= fewer);
        assert forall|i: int| 0 <= i < fewer.len() implies p(#[trigger] fewer[i]) == q(
            fewer[i],
        ) by {
            if p(i) {
                assert forall|j: int| 0 <= j < i implies (#[trigger] rest[j]).id
                    != rest[i].id by {
                    assert(s[j].id != s[i].id);
                }
            }
            if q(i) {
                assert forall|j: int| 0 <= j < i implies (#[trigger] s[j]).id != s[i].id by {
                    assert(rest[j].id != rest[i].id);
                }
            }
        }
        lemma_filter_agrees(fewer, p, q);
        assert(p(n) <==> !crate::lyrics::has_id(rest, s.last().id)) by {
            if p(n) && crate::lyrics::has_id(rest, s.last().id) {
                let k = choose|k: int|
                    0 <= k < rest.len() && (#[trigger] rest[k]).id == s.last().id;
                assert(s[k].id != s[n].id);
            }
            if !crate::lyrics::has_id(rest, s.last().id) {
                assert forall|j: int| 0 <= j < n implies (#[trigger] s[j]).id != s[n].id by {
                    assert(rest[j].id != s.last().id);
                }
            }
        }
        let before = first_places(rest);
        assert(fewer.filter(p) == before);
        assert(before.map_values(|i: int| rest[i]) =~= before.map_values(at));
        assert(all.last() == n);
        if p(n) {
            assert(first_places(s) == before.push(n));
            assert(before.push(n).map_values(at) =~= before.map_values(at).push(s[n]));
        } else {
            assert(first_places(s) == before);
        }
    }
}

/// Lyrics can be read where every line of theirs can, and a line that does not
/// begin with a bracket always can; it is no line of lyrics.
pub proof fn law_lines_without_a_stamp_can_be_read(c: CandidateModel, line: Seq<char>)
    ensures
        (forall|i: int|
            0 <= i < crate::text::lines(c.synced_lyrics).len() ==> !crate::lrc::lrc_line_faults(
                #[trigger] crate::text::lines(c.synced_lyrics)[i],
            )) ==> crate::lyrics::candidate_fits(c),
        crate::text::trim(line).len() == 0 || crate::text::trim(line)[0] != '[' ==> {
            &&& !crate::lrc::lrc_line_faults(line)
            &&& crate::lrc::lrc_line(line) is None
        },
{
    let t = crate::text::trim(line);
    crate::text_laws::law_split_parts(t, ']');
    match crate::text::split_once(t, ']') {
        Some((a, b)) => {
            if a.len() > 0 {
                assert(t[0] == a[0]);
            }
        },
        None => {},
    }
}

} // verus!
