//! Where the fields stand in what `dbus-send` prints.
use vstd::prelude::*;

verus! {

/// What comes behind the texts `marks`, with which `s` has to begin, with white
/// space between each two of them.
pub open spec fn behind_marks(s: Seq<char>, marks: Seq<Seq<char>>) -> Option<Seq<char>>
    decreases marks.len(),
{
    if marks.len() == 0 {
        Some(s)
    } else if !marks[0].is_prefix_of(s) {
        None
    } else {
        let rest = s.skip(marks[0].len() as int);
        let next = crate::text::trim_start(rest);
        if marks.len() == 1 {
            Some(rest)
        } else if next.len() == rest.len() {
            None
        } else {
            behind_marks(next, marks.drop_first())
        }
    }
}

/// What stands before the first quotation mark; it has to have a least length.
pub open spec fn quoted(s: Seq<char>, least: nat) -> Option<Seq<char>> {
    let n = crate::text::span_before(s, '"');
    if least <= n < s.len() {
        Some(s.take(n as int))
    } else {
        None
    }
}

/// The quoted text at once behind the marks that `s` begins with.
pub open spec fn text_at(s: Seq<char>, marks: Seq<Seq<char>>, least: nat) -> Option<Seq<char>> {
    match behind_marks(s, marks) {
        Some(rest) => quoted(rest, least),
        None => None,
    }
}

/// The quoted text behind the first place in `s` that has the marks and such a
/// text.
pub open spec fn first_text(s: Seq<char>, marks: Seq<Seq<char>>, least: nat) -> Option<Seq<char>>
    decreases s.len(),
{
    crate::identifier::either(
        text_at(s, marks, least),
        if s.len() == 0 {
            None
        } else {
            first_text(s.drop_first(), marks, least)
        },
    )
}

/// The number of ASCII digits that `s` begins with.
pub open spec fn digit_span(s: Seq<char>) -> nat
    decreases s.len(),
{
    if s.len() == 0 || !crate::digits::is_digit(s.first()) {
        0
    } else {
        1 + digit_span(s.drop_first())
    }
}

/// The digits at once behind the marks that `s` begins with.
pub open spec fn digits_at(s: Seq<char>, marks: Seq<Seq<char>>) -> Option<Seq<char>> {
    match behind_marks(s, marks) {
        Some(rest) => if digit_span(rest) > 0 {
            Some(rest.take(digit_span(rest) as int))
        } else {
            None
        },
        None => None,
    }
}

/// The digits behind the first place in `s` that has the marks and digits.
pub open spec fn first_digits(s: Seq<char>, marks: Seq<Seq<char>>) -> Option<Seq<char>>
    decreases s.len(),
{
    crate::identifier::either(
        digits_at(s, marks),
        if s.len() == 0 {
            None
        } else {
            first_digits(s.drop_first(), marks)
        },
    )
}

/// Whether the digits behind the marks, where `s` has any, end with `s` or
/// before an ASCII character, so that no digit of another script is among them.
pub open spec fn digits_end_plainly(s: Seq<char>, marks: Seq<Seq<char>>) -> bool {
    forall|i: int|
        0 <= i <= s.len() ==> (#[trigger] behind_marks(s.skip(i), marks) matches Some(rest) ==> (
        digit_span(rest) == rest.len() || rest[digit_span(rest) as int] <= '\u{7f}'))
}

/// The marks before the text of an entry.
pub open spec fn text_entry(name: Seq<char>) -> Seq<Seq<char>> {
    seq![name, "variant"@, "string \""@]
}

/// The marks before the first text of an entry that is a list.
pub open spec fn list_entry(name: Seq<char>) -> Seq<Seq<char>> {
    seq![name, "variant"@, "array"@, "["@, "string \""@]
}

/// The marks before the number of an entry.
pub open spec fn number_entry(name: Seq<char>) -> Seq<Seq<char>> {
    seq![name, "variant"@, "uint64"@, Seq::empty()]
}

/// The identifier that the player gives the track.
pub open spec fn track_id_field(reply: Seq<char>) -> Option<Seq<char>> {
    first_text(reply, text_entry("string \"mpris:trackid\""@), 0)
}

/// The address of the track.
pub open spec fn url_field(reply: Seq<char>) -> Option<Seq<char>> {
    first_text(reply, text_entry("string \"xesam:url\""@), 0)
}

/// The album of the track.
pub open spec fn album_field(reply: Seq<char>) -> Option<Seq<char>> {
    first_text(reply, text_entry("string \"xesam:album\""@), 0)
}

/// The title of the track.
pub open spec fn title_field(reply: Seq<char>) -> Option<Seq<char>> {
    first_text(reply, text_entry("string \"xesam:title\""@), 0)
}

/// The first artist of the track.
pub open spec fn artist_field(reply: Seq<char>) -> Option<Seq<char>> {
    first_text(reply, list_entry("string \"xesam:artist\""@), 0)
}

/// The playback status, which is not empty.
pub open spec fn status_field(reply: Seq<char>) -> Option<Seq<char>> {
    first_text(reply, seq!["variant"@, "string \""@], 1)
}

/// The marks before the length of the track.
pub open spec fn duration_marks() -> Seq<Seq<char>> {
    number_entry("string \"mpris:length\""@)
}

/// The marks before the position in the track.
pub open spec fn position_marks() -> Seq<Seq<char>> {
    seq!["int64"@, Seq::empty()]
}

proof fn lemma_span_within(s: Seq<char>, sep: char)
    ensures
        crate::text::span_before(s, sep) <= s.len(),
        forall|i: int| 0 <= i < crate::text::span_before(s, sep) ==> #[trigger] s[i] != sep,
    decreases s.len(),
{
    if s.len() > 0 && s.first() != sep {
        let rest = s.drop_first();
        lemma_span_within(rest, sep);
        assert forall|i: int| 0 <= i < crate::text::span_before(s, sep) implies #[trigger] s[i]
            != sep by {
            if i > 0 {
                assert(s[i] == rest[i - 1]);
            }
        }
    }
}

/// What comes behind the marks is the end of the text.
proof fn lemma_behind_marks(s: Seq<char>, marks: Seq<Seq<char>>)
    ensures
        behind_marks(s, marks) matches Some(rest) ==> rest.len() <= s.len() && rest == s.skip(
            s.len() - rest.len(),
        ),
    decreases marks.len(),
{
    if marks.len() == 0 {
        assert(s.skip(0) =~= s);
    } else if marks[0].is_prefix_of(s) {
        let rest = s.skip(marks[0].len() as int);
        if marks.len() > 1 {
            let next = crate::text::trim_start(rest);
            crate::text::lemma_trim_start_shape(rest);
            lemma_behind_marks(next, marks.drop_first());
            match behind_marks(next, marks.drop_first()) {
                Some(end) => {
                    assert(next.skip(next.len() - end.len()) =~= s.skip(s.len() - end.len()));
                },
                None => {},
            }
        }
    }
}

/// A field is a part of the reply that it was found in, and holds no quotation
/// mark.
pub proof fn law_text_is_part(s: Seq<char>, marks: Seq<Seq<char>>, least: nat)
    ensures
        first_text(s, marks, least) matches Some(text) ==> {
            &&& crate::identifier::is_part(text, s)
            &&& text.len() >= least
            &&& !text.contains('"')
        },
    decreases s.len(),
{
    lemma_behind_marks(s, marks);
    match behind_marks(s, marks) {
        Some(rest) => {
            lemma_span_within(rest, '"');
            let n = crate::text::span_before(rest, '"') as int;
            let start = s.len() - rest.len();
            assert(rest.take(n) =~= s.subrange(start, start + n));
        },
        None => {},
    }
    if s.len() > 0 && text_at(s, marks, least) is None {
        let rest = s.drop_first();
        law_text_is_part(rest, marks, least);
        match first_text(rest, marks, least) {
            Some(text) => {
                let (i, j): (int, int) = choose|i: int, j: int|
                    0 <= i <= j <= rest.len() && text == #[trigger] rest.subrange(i, j);
                assert(rest.subrange(i, j) =~= s.subrange(i + 1, j + 1));
            },
            None => {},
        }
    }
}

/// Whether a text is white space, at least one character of it.
pub open spec fn is_gap(s: Seq<char>) -> bool {
    s.len() > 0 && forall|i: int| 0 <= i < s.len() ==> crate::text::is_white_space(#[trigger] s[i])
}

/// Behind a mark, white space and what does not begin with white space the
/// other marks follow.
pub proof fn lemma_step(mark: Seq<char>, gap: Seq<char>, tail: Seq<char>, marks: Seq<Seq<char>>)
    requires
        marks.len() > 1,
        marks[0] == mark,
        is_gap(gap),
        tail.len() > 0,
        !crate::text::is_white_space(tail.first()),
    ensures
        behind_marks(mark + gap + tail, marks) == behind_marks(tail, marks.drop_first()),
{
    let s = mark + gap + tail;
    let rest = s.skip(mark.len() as int);
    assert(mark =~= s.subrange(0, mark.len() as int));
    assert(rest =~= gap + tail);
    assert forall|i: int| 0 <= i < gap.len() implies crate::text::is_white_space(rest[i]) by {
        assert(rest[i] == gap[i]);
    }
    assert(rest[gap.len() as int] == tail[0]);
    crate::text::lemma_trim_start_is(rest, gap.len() as int);
    assert(rest.skip(gap.len() as int) =~= tail);
}

/// An entry that is printed with its name and a text without quotation marks
/// reads back as that text, whatever the spacing and whatever follows.
pub proof fn law_printed_entry_reads_back(
    name: Seq<char>,
    first_gap: Seq<char>,
    second_gap: Seq<char>,
    text: Seq<char>,
    after: Seq<char>,
)
    requires
        is_gap(first_gap),
        is_gap(second_gap),
        !text.contains('"'),
    ensures
        first_text(
            name + first_gap + ("variant"@ + second_gap + ("string \""@ + text + "\""@ + after)),
            text_entry(name),
            0,
        ) == Some(text),
{
    reveal_strlit("variant");
    reveal_strlit("string \"");
    reveal_strlit("\"");
    let marks = text_entry(name);
    let end = "string \""@ + text + "\""@ + after;
    let middle = "variant"@ + second_gap + end;
    lemma_step(name, first_gap, middle, marks);
    let others = marks.drop_first();
    assert(others =~= seq!["variant"@, "string \""@]);
    lemma_step("variant"@, second_gap, end, others);
    let last = others.drop_first();
    assert(last =~= seq!["string \""@]);
    let n = "string \""@.len() as int;
    assert("string \""@ =~= end.subrange(0, n));
    let rest = end.skip(n);
    assert(rest =~= text + "\""@ + after);
    assert(behind_marks(end, last) == Some(rest));
    assert forall|j: int| 0 <= j < text.len() implies rest[j] != '"' by {
        assert(rest[j] == text[j]);
        if text[j] == '"' {
            assert(text.contains('"'));
        }
    }
    assert(rest[text.len() as int] == '"');
    crate::text::lemma_span_before_is(rest, '"', text.len() as int);
    assert(rest.take(text.len() as int) =~= text);
}

} // verus!
