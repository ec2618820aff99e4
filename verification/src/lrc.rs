//! Lines of synchronised lyrics: `[minutes:seconds.fraction]text`.
use vstd::prelude::*;

use crate::digits::parse_u64;
use crate::text::{chars_of, split_once_chars, text_of, trim_chars};

verus! {

/// One line of synchronised lyrics.
#[derive(Debug)]
pub struct LyricLine {
    pub time_ms: u64,
    pub text: String,
}

/// What a `LyricLine` stands for.
#[verifier::ext_equal]
pub struct LineModel {
    pub time_ms: u64,
    pub text: Seq<char>,
}

impl View for LyricLine {
    type V = LineModel;

    open spec fn view(&self) -> LineModel {
        LineModel { time_ms: self.time_ms, text: self.text@ }
    }
}

impl DeepView for LyricLine {
    type V = LineModel;

    open spec fn deep_view(&self) -> LineModel {
        self@
    }
}

impl Clone for LyricLine {
    fn clone(&self) -> (r: Self)
        ensures
            r == *self,
    {
        LyricLine { time_ms: self.time_ms, text: self.text.clone() }
    }
}

/// The number of bytes of a character in UTF-8.
pub open spec fn utf8_width(c: char) -> nat {
    if c <= '\u{7f}' {
        1
    } else if c <= '\u{7ff}' {
        2
    } else if c <= '\u{ffff}' {
        3
    } else {
        4
    }
}

/// The number of bytes of a text in UTF-8.
pub open spec fn utf8_len(s: Seq<char>) -> nat
    decreases s.len(),
{
    if s.len() == 0 {
        0
    } else {
        utf8_width(s.first()) + utf8_len(s.drop_first())
    }
}

/// The number of characters that the first `width` bytes of `s` hold, where
/// those bytes end between two characters.
pub open spec fn chars_in_bytes(s: Seq<char>, width: nat) -> Option<nat>
    decreases s.len(),
{
    if width == 0 {
        Some(0)
    } else if s.len() == 0 || utf8_width(s.first()) > width {
        None
    } else {
        match chars_in_bytes(s.drop_first(), (width - utf8_width(s.first())) as nat) {
            Some(n) => Some(n + 1),
            None => None,
        }
    }
}

/// The parts of a line of lyrics.
#[verifier::ext_equal]
pub struct LrcParts {
    pub minutes: Seq<char>,
    pub seconds: Seq<char>,
    pub fraction: Seq<char>,
    pub text: Seq<char>,
}

/// The parts of a line that has the shape `[minutes:seconds.fraction]text`.
pub open spec fn lrc_parts(line: Seq<char>) -> Option<LrcParts> {
    match crate::text::split_once(crate::text::trim(line), ']') {
        None => None,
        Some((stamp, text)) => if stamp.len() == 0 || stamp[0] != '[' {
            None
        } else {
            match crate::text::split_once(stamp.drop_first(), ':') {
                None => None,
                Some((minutes, rest)) => match crate::text::split_once(rest, '.') {
                    None => None,
                    Some((seconds, fraction)) => Some(
                        LrcParts { minutes, seconds, fraction, text },
                    ),
                },
            }
        },
    }
}

/// Whether the first three bytes of a fraction end inside a character.
pub open spec fn fraction_is_cut(fraction: Seq<char>) -> bool {
    utf8_len(fraction) >= 3 && chars_in_bytes(fraction, 3) is None
}

/// The milliseconds that a fraction of a second stands for: one or two digits
/// are tenths or hundredths, of more digits the first three count.
pub open spec fn fraction_millis(fraction: Seq<char>) -> Option<nat> {
    if utf8_len(fraction) == 0 {
        Some(0)
    } else if utf8_len(fraction) == 1 {
        match crate::digits::u64_value(fraction) {
            Some(n) => Some(n as nat * 100),
            None => None,
        }
    } else if utf8_len(fraction) == 2 {
        match crate::digits::u64_value(fraction) {
            Some(n) => Some(n as nat * 10),
            None => None,
        }
    } else {
        match chars_in_bytes(fraction, 3) {
            Some(n) => match crate::digits::u64_value(fraction.take(n as int)) {
                Some(ms) => Some(ms as nat),
                None => None,
            },
            None => None,
        }
    }
}

/// The time, in milliseconds, of minutes, seconds and milliseconds.
pub open spec fn stamp_millis(minutes: nat, seconds: nat, millis: nat) -> nat {
    (minutes * 60 + seconds) * 1000 + millis
}

/// The lines that have no meaning: their time does not fit 64 bits, or the
/// first three bytes of their fraction end inside a character.
pub open spec fn lrc_line_faults(line: Seq<char>) -> bool {
    match lrc_parts(line) {
        None => false,
        Some(p) => match (
            crate::digits::u64_value(p.minutes),
            crate::digits::u64_value(p.seconds),
        ) {
            (Some(m), Some(s)) => {
                ||| fraction_is_cut(p.fraction)
                ||| {
                    &&& crate::text::trim(p.text).len() > 0
                    &&& fraction_millis(p.fraction) is Some
                    &&& stamp_millis(m as nat, s as nat, fraction_millis(p.fraction)->0) > u64::MAX
                }
            },
            _ => false,
        },
    }
}

/// The line of lyrics that a text denotes, where it denotes one.
pub open spec fn lrc_line(line: Seq<char>) -> Option<LineModel> {
    match lrc_parts(line) {
        None => None,
        Some(p) => match (
            crate::digits::u64_value(p.minutes),
            crate::digits::u64_value(p.seconds),
            fraction_millis(p.fraction),
        ) {
            (Some(m), Some(s), Some(ms)) => if crate::text::trim(p.text).len() > 0 {
                Some(
                    LineModel {
                        time_ms: stamp_millis(m as nat, s as nat, ms) as u64,
                        text: crate::text::trim(p.text),
                    },
                )
            } else {
                None
            },
            _ => None,
        },
    }
}

/// The lines of lyrics that the texts `ls` denote, in their order.
pub open spec fn lrc_lines(ls: Seq<Seq<char>>) -> Seq<LineModel>
    decreases ls.len(),
{
    if ls.len() == 0 {
        Seq::empty()
    } else {
        let before = lrc_lines(ls.drop_last());
        match lrc_line(ls.last()) {
            Some(line) => before.push(line),
            None => before,
        }
    }
}

/// `s` with `x` put behind the last line that is not later than `x`, where
/// every line behind that one is later.
pub open spec fn insert_line(s: Seq<LineModel>, x: LineModel) -> Seq<LineModel>
    decreases s.len(),
{
    if s.len() == 0 || s.last().time_ms <= x.time_ms {
        s.push(x)
    } else {
        insert_line(s.drop_last(), x).push(s.last())
    }
}

/// The lines of `s` in the order of their times; lines of one time keep their
/// order.
pub open spec fn sorted_lines(s: Seq<LineModel>) -> Seq<LineModel>
    decreases s.len(),
{
    if s.len() == 0 {
        Seq::empty()
    } else {
        insert_line(sorted_lines(s.drop_last()), s.last())
    }
}

/// Whether no line is later than one behind it.
pub open spec fn in_order(s: Seq<LineModel>) -> bool {
    forall|i: int, j: int| 0 <= i <= j < s.len() ==> (#[trigger] s[i]).time_ms <= (
    #[trigger] s[j]).time_ms
}

/// The lines of `s` that stand at time `t`, in their order.
pub open spec fn lines_at(s: Seq<LineModel>, t: u64) -> Seq<LineModel>
    decreases s.len(),
{
    if s.len() == 0 {
        Seq::empty()
    } else if s.last().time_ms == t {
        lines_at(s.drop_last(), t).push(s.last())
    } else {
        lines_at(s.drop_last(), t)
    }
}

proof fn lemma_insert_line_at(s: Seq<LineModel>, x: LineModel, p: int)
    requires
        0 <= p <= s.len(),
        forall|j: int| p <= j < s.len() ==> (#[trigger] s[j]).time_ms > x.time_ms,
        p > 0 ==> s[p - 1].time_ms <= x.time_ms,
    ensures
        insert_line(s, x) == s.insert(p, x),
    decreases s.len(),
{
    if p == s.len() {
        assert(s.insert(p, x) =~= s.push(x));
    } else {
        assert(s[s.len() - 1].time_ms > x.time_ms);
        assert forall|j: int| p <= j < s.len() - 1 implies (
        #[trigger] s.drop_last()[j]).time_ms > x.time_ms by {
            assert(s[j].time_ms > x.time_ms);
        }
        lemma_insert_line_at(s.drop_last(), x, p);
        assert(s.drop_last().insert(p, x).push(s.last()) =~= s.insert(p, x));
    }
}

proof fn lemma_insert_in_order(s: Seq<LineModel>, x: LineModel)
    requires
        in_order(s),
    ensures
        in_order(insert_line(s, x)),
        insert_line(s, x).len() == s.len() + 1,
        insert_line(s, x).last().time_ms == if s.len() > 0 && s.last().time_ms > x.time_ms {
            s.last().time_ms
        } else {
            x.time_ms
        },
    decreases s.len(),
{
    if s.len() > 0 && s.last().time_ms > x.time_ms {
        let rest = s.drop_last();
        assert forall|i: int, j: int| 0 <= i <= j < rest.len() implies (
        #[trigger] rest[i]).time_ms <= (#[trigger] rest[j]).time_ms by {
            assert(s[i].time_ms <= s[j].time_ms);
        }
        lemma_insert_in_order(rest, x);
        let t = insert_line(rest, x);
        if rest.len() > 0 {
            assert(s[rest.len() - 1].time_ms <= s[s.len() - 1].time_ms);
        }
        assert forall|i: int, j: int| 0 <= i <= j < t.push(s.last()).len() implies (
        #[trigger] t.push(s.last())[i]).time_ms <= (#[trigger] t.push(s.last())[j]).time_ms by {
            if j < t.len() {
                assert(t[i].time_ms <= t[j].time_ms);
            } else if i < t.len() {
                assert(t[i].time_ms <= t[t.len() - 1].time_ms);
            }
        }
    } else {
        assert forall|i: int, j: int| 0 <= i <= j < s.push(x).len() implies (
        #[trigger] s.push(x)[i]).time_ms <= (#[trigger] s.push(x)[j]).time_ms by {
            if j < s.len() {
                assert(s[i].time_ms <= s[j].time_ms);
            } else if i < s.len() {
                assert(s[i].time_ms <= s[s.len() - 1].time_ms);
            }
        }
    }
}

/// Sorted lyrics are in the order of their times.
pub proof fn law_sorted_in_order(s: Seq<LineModel>)
    ensures
        in_order(sorted_lines(s)),
        sorted_lines(s).len() == s.len(),
    decreases s.len(),
{
    if s.len() > 0 {
        law_sorted_in_order(s.drop_last());
        lemma_insert_in_order(sorted_lines(s.drop_last()), s.last());
    }
}

proof fn lemma_insert_lines_at(s: Seq<LineModel>, x: LineModel, t: u64)
    ensures
        lines_at(insert_line(s, x), t) == if x.time_ms == t {
            lines_at(s, t).push(x)
        } else {
            lines_at(s, t)
        },
    decreases s.len(),
{
    if s.len() == 0 || s.last().time_ms <= x.time_ms {
        assert(s.push(x).drop_last() =~= s);
    } else {
        let rest = s.drop_last();
        lemma_insert_lines_at(rest, x, t);
        let r = insert_line(rest, x);
        assert(r.push(s.last()).drop_last() =~= r);
        if x.time_ms == t {
            assert(s.last().time_ms != t);
        }
    }
}

/// Sorting keeps, at every time, the lines of that time and their order; so it
/// neither drops nor adds a line.
pub proof fn law_sorting_keeps_lines(s: Seq<LineModel>, t: u64)
    ensures
        lines_at(sorted_lines(s), t) == lines_at(s, t),
    decreases s.len(),
{
    if s.len() > 0 {
        law_sorting_keeps_lines(s.drop_last(), t);
        lemma_insert_lines_at(sorted_lines(s.drop_last()), s.last(), t);
    }
}

/// Lyrics that are in order already stay as they are.
pub proof fn law_in_order_stays(s: Seq<LineModel>)
    requires
        in_order(s),
    ensures
        sorted_lines(s) == s,
    decreases s.len(),
{
    if s.len() > 0 {
        let rest = s.drop_last();
        assert forall|i: int, j: int| 0 <= i <= j < rest.len() implies (
        #[trigger] rest[i]).time_ms <= (#[trigger] rest[j]).time_ms by {
            assert(s[i].time_ms <= s[j].time_ms);
        }
        law_in_order_stays(rest);
        if rest.len() > 0 {
            assert(s[rest.len() - 1].time_ms <= s[s.len() - 1].time_ms);
        }
        assert(rest.push(s.last()) =~= s);
    }
}

/// The number of bytes of a character in UTF-8.
fn width_of(c: char) -> (r: usize)
    ensures
        r == utf8_width(c),
        1 <= r <= 4,
{
    if c <= '\u{7f}' {
        1
    } else if c <= '\u{7ff}' {
        2
    } else if c <= '\u{ffff}' {
        3
    } else {
        4
    }
}

/// What reading a fraction of a second gives.
enum Fraction {
    Millis(u64),
    NotANumber,
    Cut,
}

proof fn lemma_utf8_len_at_least(s: Seq<char>)
    ensures
        utf8_len(s) >= s.len(),
    decreases s.len(),
{
    if s.len() > 0 {
        lemma_utf8_len_at_least(s.drop_first());
    }
}

/// The number of bytes of `cs`, up to three: a larger one is given as three.
fn short_utf8_len(cs: &[char]) -> (r: usize)
    ensures
        utf8_len(cs@) < 3 ==> r == utf8_len(cs@),
        utf8_len(cs@) >= 3 ==> r == 3,
{
    proof {
        lemma_utf8_len_at_least(cs@);
    }
    if cs.len() == 0 {
        return 0;
    }
    let first: usize = width_of(cs[0]);
    proof {
        lemma_utf8_len_at_least(cs@.drop_first());
    }
    if cs.len() == 1 {
        assert(cs@.drop_first() =~= Seq::<char>::empty());
        assert(utf8_len(cs@.drop_first()) == 0);
        return if first < 3 {
            first
        } else {
            3
        };
    }
    if cs.len() >= 3 {
        return 3;
    }
    let second: usize = width_of(cs[1]);
    proof {
        let rest = cs@.drop_first();
        assert(rest.first() == cs@[1]);
        assert(rest.drop_first() =~= Seq::<char>::empty());
        assert(utf8_len(rest.drop_first()) == 0);
        assert(utf8_len(rest) == second);
    }
    if first + second < 3 {
        first + second
    } else {
        3
    }
}

/// The number of characters in the first three bytes of `cs`.
fn chars_in_three_bytes(cs: &[char]) -> (r: Option<usize>)
    ensures
        match r {
            Some(n) => chars_in_bytes(cs@, 3) == Some(n as nat) && n <= cs@.len(),
            None => chars_in_bytes(cs@, 3) is None,
        },
{
    proof {
        reveal_with_fuel(chars_in_bytes, 5);
    }
    if cs.len() == 0 {
        return None;
    }
    let a: usize = width_of(cs[0]);
    if a > 3 {
        return None;
    }
    if a == 3 {
        return Some(1);
    }
    let ghost r1 = cs@.drop_first();
    if cs.len() == 1 {
        assert(r1.len() == 0);
        return None;
    }
    assert(r1.first() == cs@[1]);
    let b: usize = width_of(cs[1]);
    if a + b > 3 {
        return None;
    }
    if a + b == 3 {
        return Some(2);
    }
    let ghost r2 = r1.drop_first();
    if cs.len() == 2 {
        assert(r2.len() == 0);
        return None;
    }
    assert(r2.first() == cs@[2]);
    let c: usize = width_of(cs[2]);
    if c > 1 {
        return None;
    }
    Some(3)
}

/// The value of at most two digits is below one hundred.
proof fn lemma_short_value(s: Seq<char>)
    requires
        s.len() <= 2,
    ensures
        crate::digits::u64_value(s) matches Some(n) ==> n < 100,
        s.len() <= 1 ==> (crate::digits::u64_value(s) matches Some(n) ==> n < 10),
{
    let d = crate::digits::without_plus(s);
    reveal_with_fuel(crate::digits::value, 3);
    if crate::digits::all_digits(d) && d.len() > 0 {
        assert(crate::digits::is_digit(d[d.len() - 1]));
        assert(crate::digits::is_digit(d[0]));
        if d.len() == 2 {
            assert(d.drop_last().last() == d[0]);
        }
    }
}

fn read_fraction(cs: &[char]) -> (r: Fraction)
    ensures
        match r {
            Fraction::Millis(ms) => !fraction_is_cut(cs@) && fraction_millis(cs@) == Some(
                ms as nat,
            ),
            Fraction::NotANumber => !fraction_is_cut(cs@) && fraction_millis(cs@) is None,
            Fraction::Cut => fraction_is_cut(cs@),
        },
{
    let len: usize = short_utf8_len(cs);
    proof {
        lemma_utf8_len_at_least(cs@);
        if utf8_len(cs@) <= 2 {
            lemma_short_value(cs@);
        }
    }
    if len == 0 {
        return Fraction::Millis(0);
    }
    if len < 3 {
        let scale: u64 = if len == 1 {
            100
        } else {
            10
        };
        return match parse_u64(cs) {
            Some(n) => Fraction::Millis(n * scale),
            None => Fraction::NotANumber,
        };
    }
    match chars_in_three_bytes(cs) {
        None => Fraction::Cut,
        Some(n) => {
            assert(cs@.subrange(0, n as int) =~= cs@.take(n as int));
            match parse_u64(vstd::slice::slice_subrange(cs, 0, n)) {
                Some(ms) => Fraction::Millis(ms),
                None => Fraction::NotANumber,
            }
        },
    }
}

/// What reading a line of lyrics gives.
enum Reading {
    Line(LyricLine),
    Other,
    Fault,
}

fn read_lrc_line(line: &str) -> (r: Reading)
    ensures
        match r {
            Reading::Line(l) => !lrc_line_faults(line@) && lrc_line(line@) == Some(l@),
            Reading::Other => !lrc_line_faults(line@) && lrc_line(line@) is None,
            Reading::Fault => lrc_line_faults(line@),
        },
{
    let cs: Vec<char> = chars_of(line);
    let trimmed: &[char] = trim_chars(cs.as_slice());
    let (stamp, text): (&[char], &[char]) = match split_once_chars(trimmed, ']') {
        Some(parts) => parts,
        None => return Reading::Other,
    };
    if stamp.len() == 0 || stamp[0] != '[' {
        return Reading::Other;
    }
    let inner: &[char] = vstd::slice::slice_subrange(stamp, 1, stamp.len());
    assert(inner@ =~= stamp@.drop_first());
    let (min, rest): (&[char], &[char]) = match split_once_chars(inner, ':') {
        Some(parts) => parts,
        None => return Reading::Other,
    };
    let (sec, frac): (&[char], &[char]) = match split_once_chars(rest, '.') {
        Some(parts) => parts,
        None => return Reading::Other,
    };
    let ghost parts = LrcParts { minutes: min@, seconds: sec@, fraction: frac@, text: text@ };
    assert(lrc_parts(line@) == Some(parts));
    let minutes: u64 = match parse_u64(min) {
        Some(n) => n,
        None => return Reading::Other,
    };
    let seconds: u64 = match parse_u64(sec) {
        Some(n) => n,
        None => return Reading::Other,
    };
    let millis: u64 = match read_fraction(frac) {
        Fraction::Millis(ms) => ms,
        Fraction::NotANumber => return Reading::Other,
        Fraction::Cut => return Reading::Fault,
    };
    let text: &[char] = trim_chars(text);
    if text.len() == 0 {
        return Reading::Other;
    }
    let time: u128 = (minutes as u128 * 60 + seconds as u128) * 1000 + millis as u128;
    if time > u64::MAX as u128 {
        return Reading::Fault;
    }
    Reading::Line(LyricLine { time_ms: time as u64, text: text_of(text) })
}

/// Whether a line of lyrics has a meaning: its time fits 64 bits and the first
/// three bytes of its fraction end between two characters.
pub fn lrc_line_fits(line: &str) -> (r: bool)
    ensures
        r == !lrc_line_faults(line@),
{
    match read_lrc_line(line) {
        Reading::Fault => false,
        _ => true,
    }
}

/// Reads a line of lyrics, `[minutes:seconds.fraction]text`.
pub fn parse_lrc_line(line: &str) -> (r: Option<LyricLine>)
    requires
        !lrc_line_faults(line@),
    ensures
        r.deep_view() == lrc_line(line@),
{
    match read_lrc_line(line) {
        Reading::Line(l) => Some(l),
        _ => None,
    }
}

/// Puts a line into lyrics that are in order.
pub fn insert_in_order(lines: &mut Vec<LyricLine>, line: LyricLine)
    ensures
        final(lines).deep_view() == insert_line(old(lines).deep_view(), line@),
{
    let ghost before = lines.deep_view();
    let mut p: usize = lines.len();
    while p > 0 && lines[p - 1].time_ms > line.time_ms
        invariant
            p <= lines.len(),
            before == lines.deep_view(),
            forall|j: int| p <= j < lines.len() ==> (#[trigger] before[j]).time_ms > line@.time_ms,
        decreases p,
    {
        p = p - 1;
        assert(before[p as int] == lines@[p as int]@);
    }
    proof {
        if p > 0 {
            assert(before[p - 1] == lines@[p - 1]@);
        }
        lemma_insert_line_at(before, line@, p as int);
    }
    let ghost x = line@;
    lines.insert(p, line);
    assert(lines.deep_view() =~= before.insert(p as int, x));
}

} // verus!
