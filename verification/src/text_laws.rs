//! What holds of texts and numerals, whatever the texts are.
use vstd::prelude::*;

verus! {

/// Whether a text is white space only; it may be empty.
pub open spec fn is_blank(s: Seq<char>) -> bool {
    forall|i: int| 0 <= i < s.len() ==> crate::text::is_white_space(#[trigger] s[i])
}

/// Whether a text is empty or has no white space at either end.
pub open spec fn is_trimmed(s: Seq<char>) -> bool {
    s.len() > 0 ==> !crate::text::is_white_space(s.first()) && !crate::text::is_white_space(
        s.last(),
    )
}

/// Trimming takes away the white space around a text, and nothing else.
pub proof fn law_trim_takes_outer_space(before: Seq<char>, core: Seq<char>, after: Seq<char>)
    requires
        is_blank(before),
        is_blank(after),
        is_trimmed(core),
    ensures
        crate::text::trim(before + core + after) == core,
{
    let s = before + core + after;
    let n = before.len() as int;
    assert forall|j: int| 0 <= j < n implies crate::text::is_white_space(s[j]) by {
        assert(s[j] == before[j]);
    }
    if core.len() == 0 {
        assert forall|j: int| 0 <= j < s.len() implies crate::text::is_white_space(s[j]) by {
            if j >= n {
                assert(s[j] == after[j - n]);
            }
        }
        crate::text::lemma_trim_start_is(s, s.len() as int);
        assert(crate::text::trim(s) =~= core);
    } else {
        assert(s[n] == core[0]);
        crate::text::lemma_trim_start_is(s, n);
        let rest = s.skip(n);
        assert(rest =~= core + after);
        let k = core.len() as int;
        assert forall|j: int| k <= j < rest.len() implies crate::text::is_white_space(rest[j]) by {
            assert(rest[j] == after[j - k]);
        }
        assert(rest[k - 1] == core[k - 1]);
        crate::text::lemma_trim_end_is(rest, k);
        assert(rest.take(k) =~= core);
    }
}

pub proof fn lemma_start_split(s: Seq<char>) -> (before: Seq<char>)
    ensures
        s == before + crate::text::trim_start(s),
        is_blank(before),
    decreases s.len(),
{
    if s.len() > 0 && crate::text::is_white_space(s.first()) {
        let b = lemma_start_split(s.drop_first());
        let before = seq![s.first()] + b;
        let rest = s.drop_first();
        let core = crate::text::trim_start(rest);
        assert(crate::text::trim_start(s) == core);
        assert(rest == b + core);
        assert(s =~= seq![s.first()] + rest);
        assert(s =~= before + crate::text::trim_start(s));
        assert forall|i: int| 0 <= i < before.len() implies crate::text::is_white_space(
            #[trigger] before[i],
        ) by {
            if i > 0 {
                assert(before[i] == b[i - 1]);
            }
        }
        before
    } else {
        assert(s =~= Seq::<char>::empty() + s);
        Seq::empty()
    }
}

proof fn lemma_end_split(s: Seq<char>) -> (after: Seq<char>)
    ensures
        s == crate::text::trim_end(s) + after,
        is_blank(after),
    decreases s.len(),
{
    if s.len() > 0 && crate::text::is_white_space(s.last()) {
        let a = lemma_end_split(s.drop_last());
        let after = a.push(s.last());
        let rest = s.drop_last();
        let core = crate::text::trim_end(rest);
        assert(crate::text::trim_end(s) == core);
        assert(rest == core + a);
        assert(s =~= rest.push(s.last()));
        assert(s =~= crate::text::trim_end(s) + after);
        after
    } else {
        assert(s =~= s + Seq::<char>::empty());
        Seq::empty()
    }
}

/// Every text is its trimmed text with white space around it.
pub proof fn law_trim_splits(s: Seq<char>) -> (r: (Seq<char>, Seq<char>))
    ensures
        s == r.0 + crate::text::trim(s) + r.1,
        is_blank(r.0),
        is_blank(r.1),
        is_trimmed(crate::text::trim(s)),
{
    let before = lemma_start_split(s);
    let after = lemma_end_split(crate::text::trim_start(s));
    crate::text::lemma_trim_shape(s);
    assert(s =~= before + crate::text::trim(s) + after);
    (before, after)
}

/// A text is parted at its first separator.
pub proof fn law_split_at_first(a: Seq<char>, sep: char, b: Seq<char>)
    requires
        !a.contains(sep),
    ensures
        crate::text::split_once(a + seq![sep] + b, sep) == Some((a, b)),
        crate::text::split_once(a, sep) is None,
{
    let s = a + seq![sep] + b;
    let n = a.len() as int;
    assert forall|j: int| 0 <= j < n implies s[j] != sep by {
        assert(s[j] == a[j]);
    }
    assert(s[n] == sep);
    crate::text::lemma_span_before_is(s, sep, n);
    assert(s.take(n) =~= a);
    assert(s.skip(n + 1) =~= b);
    assert forall|j: int| 0 <= j < n implies a[j] != sep by {}
    crate::text::lemma_span_before_is(a, sep, n);
}

/// The two parts of a text have their separator between them, and the first has
/// none.
pub proof fn law_split_parts(s: Seq<char>, sep: char)
    ensures
        crate::text::split_once(s, sep) matches Some((a, b)) ==> s == a + seq![sep] + b
            && !a.contains(sep),
        crate::text::split_once(s, sep) is None <==> !s.contains(sep),
{
    if s.contains(sep) {
        let k = lemma_first_place(s, sep);
        let a = s.take(k);
        let b = s.skip(k + 1);
        assert(s =~= a + seq![sep] + b);
        assert(!a.contains(sep)) by {
            if a.contains(sep) {
                let j = choose|j: int| 0 <= j < a.len() && a[j] == sep;
                assert(s[j] != sep);
            }
        }
        law_split_at_first(a, sep, b);
    } else {
        law_split_at_first(s, sep, Seq::empty());
    }
}

proof fn lemma_first_place(s: Seq<char>, c: char) -> (k: int)
    requires
        s.contains(c),
    ensures
        0 <= k < s.len(),
        s[k] == c,
        forall|j: int| 0 <= j < k ==> s[j] != c,
    decreases s.len(),
{
    if s[0] == c {
        0
    } else {
        let rest = s.drop_first();
        let j = choose|j: int| 0 <= j < s.len() && s[j] == c;
        assert(rest[j - 1] == c);
        let k = lemma_first_place(rest, c);
        assert forall|i: int| 0 <= i < k + 1 implies s[i] != c by {
            if i > 0 {
                assert(s[i] == rest[i - 1]);
            }
        }
        k + 1
    }
}

/// A line feed ends a line, and the carriage return before it goes with it; the
/// rest of the text is read on its own.
pub proof fn law_lines_end_at_line_feeds(a: Seq<char>, b: Seq<char>)
    requires
        !a.contains('\n'),
    ensures
        crate::text::lines(a + seq!['\n'] + b) == seq![
            if a.len() > 0 && a.last() == '\r' {
                a.drop_last()
            } else {
                a
            },
        ] + crate::text::lines(b),
        crate::text::lines(a) == if a.len() == 0 {
            Seq::<Seq<char>>::empty()
        } else {
            seq![a]
        },
{
    let s = a + seq!['\n'] + b;
    let n = a.len() as int;
    assert forall|j: int| 0 <= j < n implies s[j] != '\n' by {
        assert(s[j] == a[j]);
    }
    assert(s[n] == '\n');
    crate::text::lemma_span_before_is(s, '\n', n);
    assert(s.take(n) =~= a);
    assert(s.skip(n + 1) =~= b);
    assert forall|j: int| 0 <= j < n implies a[j] != '\n' by {}
    crate::text::lemma_span_before_is(a, '\n', n);
}

/// White space parts words: the words of two texts with white space between
/// them are the words of both.
pub proof fn law_white_space_parts_words(a: Seq<char>, c: char, b: Seq<char>)
    requires
        crate::text::is_white_space(c),
    ensures
        crate::text::words(a + seq![c] + b) == crate::text::words(a) + crate::text::words(b),
    decreases a.len(),
{
    let s = a + seq![c] + b;
    if a.len() == 0 {
        assert(s.first() == c);
        assert(s.drop_first() =~= b);
        assert(crate::text::words(s) =~= crate::text::words(a) + crate::text::words(b));
    } else if crate::text::is_white_space(a.first()) {
        assert(s.first() == a.first());
        assert(s.drop_first() =~= a.drop_first() + seq![c] + b);
        law_white_space_parts_words(a.drop_first(), c, b);
    } else {
        let n = lemma_word_end(a);
        assert(s.first() == a.first());
        assert forall|j: int| 0 <= j < n implies !crate::text::is_white_space(s[j]) by {
            assert(s[j] == a[j]);
        }
        if n < a.len() {
            assert(s[n] == a[n]);
        } else {
            assert(s[n] == c);
        }
        crate::text::lemma_word_span_is(a, n);
        crate::text::lemma_word_span_is(s, n);
        assert(s.take(n) =~= a.take(n));
        assert(s.skip(n) =~= a.skip(n) + seq![c] + b);
        law_white_space_parts_words(a.skip(n), c, b);
        assert(crate::text::words(s) =~= crate::text::words(a) + crate::text::words(b));
    }
}

proof fn lemma_word_end(s: Seq<char>) -> (n: int)
    requires
        s.len() > 0,
        !crate::text::is_white_space(s.first()),
    ensures
        0 < n <= s.len(),
        forall|j: int| 0 <= j < n ==> !crate::text::is_white_space(s[j]),
        n < s.len() ==> crate::text::is_white_space(s[n]),
    decreases s.len(),
{
    let rest = s.drop_first();
    if rest.len() == 0 || crate::text::is_white_space(rest.first()) {
        1
    } else {
        let k = lemma_word_end(rest);
        assert forall|j: int| 0 <= j < k + 1 implies !crate::text::is_white_space(s[j]) by {
            if j > 0 {
                assert(s[j] == rest[j - 1]);
            }
        }
        k + 1
    }
}

/// A word is its only word, and blank texts have none.
pub proof fn law_word_is_its_word(w: Seq<char>)
    ensures
        crate::text::is_word(w) ==> crate::text::words(w) == seq![w],
        is_blank(w) ==> crate::text::words(w) == Seq::<Seq<char>>::empty(),
    decreases w.len(),
{
    if crate::text::is_word(w) {
        assert(!crate::text::is_white_space(w[0]));
        crate::text::lemma_word_span_is(w, w.len() as int);
        assert(w.take(w.len() as int) =~= w);
        assert(w.skip(w.len() as int) =~= Seq::<char>::empty());
        assert(crate::text::words(Seq::<char>::empty()) =~= Seq::<Seq<char>>::empty());
        assert(crate::text::words(w) =~= seq![w]);
    }
    if is_blank(w) && w.len() > 0 {
        assert(crate::text::is_white_space(w[0]));
        let rest = w.drop_first();
        assert forall|i: int| 0 <= i < rest.len() implies crate::text::is_white_space(
            #[trigger] rest[i],
        ) by {
            assert(crate::text::is_white_space(w[i + 1]));
        }
        law_word_is_its_word(rest);
    }
}

/// Joining two lists of texts puts the separator once between them.
pub proof fn law_join_in_two_steps(a: Seq<Seq<char>>, b: Seq<Seq<char>>, sep: Seq<char>)
    requires
        a.len() > 0,
        b.len() > 0,
    ensures
        crate::text::join(a + b, sep) == crate::text::join(a, sep) + sep + crate::text::join(
            b,
            sep,
        ),
    decreases b.len(),
{
    let all = a + b;
    if b.len() == 1 {
        assert(all.drop_last() =~= a);
        assert(all.last() == b[0]);
    } else {
        assert(all.drop_last() =~= a + b.drop_last());
        assert(all.last() == b.last());
        law_join_in_two_steps(a, b.drop_last(), sep);
        assert(crate::text::join(all, sep) =~= crate::text::join(a, sep) + sep + crate::text::join(
            b,
            sep,
        ));
    }
}

/// A single text is joined as it is, and no text gives an empty one.
pub proof fn law_join_of_one(x: Seq<char>, sep: Seq<char>)
    ensures
        crate::text::join(seq![x], sep) == x,
        crate::text::join(Seq::empty(), sep) == Seq::<char>::empty(),
{
}

/// Two texts are the same but for the case of ASCII letters where each two of
/// their characters are equal or one letter in its two cases.
pub proof fn law_folding_forgets_case_only(s: Seq<char>, t: Seq<char>)
    ensures
        crate::text::ascii_folded(s) == crate::text::ascii_folded(t) <==> (s.len() == t.len() && (
        forall|i: int|
            0 <= i < s.len() ==> {
                ||| #[trigger] s[i] == t[i]
                ||| ('A' <= s[i] <= 'Z' && t[i] as int == s[i] as int + 32)
                ||| ('A' <= t[i] <= 'Z' && s[i] as int == t[i] as int + 32)
            })),
{
    let a = crate::text::ascii_folded(s);
    let b = crate::text::ascii_folded(t);
    if a == b {
        assert(a.len() == b.len());
        assert forall|i: int| 0 <= i < s.len() implies {
            ||| #[trigger] s[i] == t[i]
            ||| ('A' <= s[i] <= 'Z' && t[i] as int == s[i] as int + 32)
            ||| ('A' <= t[i] <= 'Z' && s[i] as int == t[i] as int + 32)
        } by {
            assert(a[i] == b[i]);
        }
    }
    if s.len() == t.len() && (forall|i: int|
        0 <= i < s.len() ==> {
            ||| #[trigger] s[i] == t[i]
            ||| ('A' <= s[i] <= 'Z' && t[i] as int == s[i] as int + 32)
            ||| ('A' <= t[i] <= 'Z' && s[i] as int == t[i] as int + 32)
        }) {
        assert forall|i: int| 0 <= i < a.len() implies a[i] == b[i] by {
            let x = s[i];
        }
        assert(a =~= b);
    }
}

/// A numeral is made of digits, denotes its number and has no leading zero.
pub proof fn law_numeral_denotes_its_number(n: nat)
    ensures
        crate::digits::decimal(n).len() > 0,
        crate::digits::all_digits(crate::digits::decimal(n)),
        crate::digits::value(crate::digits::decimal(n)) == n,
        n > 0 ==> crate::digits::decimal(n)[0] != '0',
    decreases n,
{
    crate::digits::lemma_decimal_digits(n);
    crate::digits::lemma_decimal_value(n);
    if n >= 10 {
        law_numeral_denotes_its_number(n / 10);
        assert(crate::digits::decimal(n)[0] == crate::digits::decimal(n / 10)[0]);
    }
}

/// A digit behind others makes them count ten times.
pub proof fn law_digits_count_by_place(s: Seq<char>, c: char)
    requires
        crate::digits::is_digit(c),
    ensures
        crate::digits::value(s.push(c)) == 10 * crate::digits::value(s) + (c as int - '0' as int),
        crate::digits::value(Seq::empty()) == 0,
{
    assert(s.push(c).drop_last() =~= s);
}

/// Digits read as the number that they denote, with or without a plus sign in
/// front, where it fits 64 bits.
pub proof fn law_digits_read(s: Seq<char>)
    requires
        s.len() > 0,
        crate::digits::all_digits(s),
    ensures
        crate::digits::value(s) <= u64::MAX ==> {
            &&& crate::digits::u64_value(s) == Some(crate::digits::value(s) as u64)
            &&& crate::digits::u64_value(seq!['+'] + s) == Some(crate::digits::value(s) as u64)
        },
        crate::digits::value(s) > u64::MAX ==> {
            &&& crate::digits::u64_value(s) is None
            &&& crate::digits::u64_value(seq!['+'] + s) is None
        },
{
    assert(crate::digits::is_digit(s[0]));
    assert((seq!['+'] + s).drop_first() =~= s);
}

/// A text without digits, or with a character that is neither a digit nor a
/// plus sign in front, reads as no number.
pub proof fn law_other_texts_are_no_numbers(s: Seq<char>, i: int)
    requires
        0 <= i < s.len(),
        !crate::digits::is_digit(s[i]),
        i > 0 || s[0] != '+' || s.len() == 1,
    ensures
        crate::digits::u64_value(s) is None,
        crate::digits::u64_value(Seq::empty()) is None,
{
    let d = crate::digits::without_plus(s);
    if s[0] == '+' {
        if s.len() > 1 {
            assert(d[i - 1] == s[i]);
        }
    } else {
        assert(d[i] == s[i]);
    }
}

/// A negative number has a minus sign in front of its size; other numbers have
/// no sign.
pub proof fn law_signed_numeral(n: int)
    ensures
        n >= 0 ==> crate::digits::signed_decimal(n) == crate::digits::decimal(n as nat),
        n < 0 ==> crate::digits::signed_decimal(n) == seq!['-'] + crate::digits::decimal(
            (-n) as nat,
        ),
{
}

/// Padding puts zeros in front until the width is reached, and no more.
pub proof fn law_padding_adds_zeros(s: Seq<char>, width: nat)
    ensures
        ({
            let p = crate::digits::zero_padded(s, width);
            &&& p.len() == if s.len() < width {
                width
            } else {
                s.len()
            }
            &&& s == p.skip(p.len() - s.len())
            &&& forall|i: int| 0 <= i < p.len() - s.len() ==> #[trigger] p[i] == '0'
        }),
{
    let p = crate::digits::zero_padded(s, width);
    assert(s =~= p.skip(p.len() - s.len()));
}

/// The white space of Unicode, by its code points.
pub proof fn law_white_space_by_code(c: char)
    ensures
        crate::text::is_white_space(c) <==> {
            let n = c as int;
            ||| 9 <= n <= 13
            ||| n == 32
            ||| n == 133
            ||| n == 160
            ||| n == 5760
            ||| 8192 <= n <= 8202
            ||| n == 8232
            ||| n == 8233
            ||| n == 8239
            ||| n == 8287
            ||| n == 12288
        },
{
}

/// The ten digits, by their code points, and what each counts.
pub proof fn law_digits_by_code(c: char)
    ensures
        crate::digits::is_digit(c) <==> 48 <= c as int <= 57,
        crate::digits::is_digit(c) ==> crate::digits::value(seq![c]) == c as int - 48,
        crate::digits::is_digit(c) ==> crate::digits::decimal((c as int - 48) as nat) == seq![c],
{
    assert(seq![c].drop_last() =~= Seq::<char>::empty());
    assert(crate::digits::value(Seq::<char>::empty()) == 0);
}

/// The letters and digits of identifiers, by their code points.
pub proof fn law_identifier_characters_by_code(c: char)
    ensures
        crate::identifier::is_id_char(c) <==> {
            let n = c as int;
            ||| 48 <= n <= 57
            ||| 65 <= n <= 90
            ||| 97 <= n <= 122
        },
        crate::identifier::is_id(seq![c]) <==> crate::identifier::is_id_char(c),
{
    if crate::identifier::is_id(seq![c]) {
        assert(crate::identifier::is_id_char(seq![c][0]));
    }
}

} // verus!
