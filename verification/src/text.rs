//! Texts as sequences of characters: white space, trimming, lines, words,
//! splitting and joining.
use vstd::prelude::*;

verus! {

/// The characters with the Unicode property `White_Space`.
pub open spec fn is_white_space(c: char) -> bool {
    ||| '\u{9}' <= c <= '\u{d}'
    ||| c == ' '
    ||| c == '\u{85}'
    ||| c == '\u{a0}'
    ||| c == '\u{1680}'
    ||| '\u{2000}' <= c <= '\u{200a}'
    ||| c == '\u{2028}'
    ||| c == '\u{2029}'
    ||| c == '\u{202f}'
    ||| c == '\u{205f}'
    ||| c == '\u{3000}'
}

/// `s` without the white space that it begins with.
pub open spec fn trim_start(s: Seq<char>) -> Seq<char>
    decreases s.len(),
{
    if s.len() > 0 && is_white_space(s.first()) {
        trim_start(s.drop_first())
    } else {
        s
    }
}

/// `s` without the white space that it ends with.
pub open spec fn trim_end(s: Seq<char>) -> Seq<char>
    decreases s.len(),
{
    if s.len() > 0 && is_white_space(s.last()) {
        trim_end(s.drop_last())
    } else {
        s
    }
}

/// `s` without the white space at both ends.
pub open spec fn trim(s: Seq<char>) -> Seq<char> {
    trim_end(trim_start(s))
}

/// The number of characters of `s` before the first `sep`; all of them where
/// there is none.
pub open spec fn span_before(s: Seq<char>, sep: char) -> nat
    decreases s.len(),
{
    if s.len() == 0 || s.first() == sep {
        0
    } else {
        1 + span_before(s.drop_first(), sep)
    }
}

/// The parts of `s` before and after its first `sep`.
pub open spec fn split_once(s: Seq<char>, sep: char) -> Option<(Seq<char>, Seq<char>)> {
    let i = span_before(s, sep) as int;
    if i < s.len() {
        Some((s.take(i), s.skip(i + 1)))
    } else {
        None
    }
}

/// A line without the carriage return that belonged to its terminator.
pub open spec fn without_return(line: Seq<char>) -> Seq<char> {
    if line.len() > 0 && line.last() == '\r' {
        line.drop_last()
    } else {
        line
    }
}

/// The lines of `s`: each is ended by a line feed, alone or after a carriage
/// return, and the terminator of the last one is optional.
pub open spec fn lines(s: Seq<char>) -> Seq<Seq<char>>
    decreases s.len(),
{
    let i = span_before(s, '\n') as int;
    if s.len() == 0 {
        Seq::empty()
    } else if i >= s.len() {
        seq![s]
    } else {
        seq![without_return(s.take(i))] + lines(s.skip(i + 1))
    }
}

/// The number of characters of `s` before its first white space.
pub open spec fn word_span(s: Seq<char>) -> nat
    decreases s.len(),
{
    if s.len() == 0 || is_white_space(s.first()) {
        0
    } else {
        1 + word_span(s.drop_first())
    }
}

/// The words of `s`: its longest runs without white space.
pub open spec fn words(s: Seq<char>) -> Seq<Seq<char>>
    decreases s.len(),
{
    if s.len() == 0 {
        Seq::empty()
    } else if is_white_space(s.first()) {
        words(s.drop_first())
    } else {
        let n = word_span(s) as int;
        if 0 < n <= s.len() {
            seq![s.take(n)] + words(s.skip(n))
        } else {
            Seq::empty()
        }
    }
}

/// The texts `parts`, one after the other, with `sep` between each two.
pub open spec fn join(parts: Seq<Seq<char>>, sep: Seq<char>) -> Seq<char>
    decreases parts.len(),
{
    if parts.len() == 0 {
        Seq::empty()
    } else if parts.len() == 1 {
        parts[0]
    } else {
        join(parts.drop_last(), sep) + sep + parts.last()
    }
}

/// An ASCII capital as its small letter, any other character as it is.
pub open spec fn ascii_small(c: char) -> char {
    if 'A' <= c <= 'Z' {
        (c as int + 32) as char
    } else {
        c
    }
}

/// A text with its ASCII capitals as small letters.
pub open spec fn ascii_folded(s: Seq<char>) -> Seq<char> {
    Seq::new(s.len(), |i: int| ascii_small(s[i]))
}

/// Appends a character to a text (`String::push`).
pub assume_specification[ String::push ](s: &mut String, c: char)
    ensures
        final(s)@ == old(s)@.push(c),
;

/// Where the first `sep` of a text is.
pub proof fn lemma_span_before_is(s: Seq<char>, sep: char, n: int)
    requires
        0 <= n <= s.len(),
        forall|j: int| 0 <= j < n ==> s[j] != sep,
        n < s.len() ==> s[n] == sep,
    ensures
        span_before(s, sep) == n,
    decreases s.len(),
{
    if n > 0 {
        assert(s[0] != sep);
        assert forall|j: int| 0 <= j < n - 1 implies s.drop_first()[j] != sep by {
            assert(s[j + 1] != sep);
        }
        lemma_span_before_is(s.drop_first(), sep, n - 1);
    }
}

/// A text begins with `n` characters of white space and no more.
pub proof fn lemma_trim_start_is(s: Seq<char>, n: int)
    requires
        0 <= n <= s.len(),
        forall|j: int| 0 <= j < n ==> is_white_space(s[j]),
        n < s.len() ==> !is_white_space(s[n]),
    ensures
        trim_start(s) == s.skip(n),
    decreases s.len(),
{
    if n > 0 {
        assert(is_white_space(s[0]));
        assert forall|j: int| 0 <= j < n - 1 implies is_white_space(s.drop_first()[j]) by {
            assert(is_white_space(s[j + 1]));
        }
        lemma_trim_start_is(s.drop_first(), n - 1);
        assert(s.drop_first().skip(n - 1) =~= s.skip(n));
    } else {
        assert(s.skip(0) =~= s);
    }
}

/// A text ends with white space behind its first `n` characters.
pub proof fn lemma_trim_end_is(s: Seq<char>, n: int)
    requires
        0 <= n <= s.len(),
        forall|j: int| n <= j < s.len() ==> is_white_space(s[j]),
        n > 0 ==> !is_white_space(s[n - 1]),
    ensures
        trim_end(s) == s.take(n),
    decreases s.len(),
{
    if n < s.len() {
        assert(is_white_space(s[s.len() - 1]));
        assert forall|j: int| n <= j < s.len() - 1 implies is_white_space(s.drop_last()[j]) by {
            assert(is_white_space(s[j]));
        }
        lemma_trim_end_is(s.drop_last(), n);
        assert(s.drop_last().take(n) =~= s.take(n));
    } else {
        assert(s.take(n) =~= s);
    }
}

/// What is left of a text without its leading white space is its end.
pub proof fn lemma_trim_start_shape(s: Seq<char>)
    ensures
        trim_start(s).len() <= s.len(),
        trim_start(s) == s.skip(s.len() - trim_start(s).len()),
        trim_start(s).len() > 0 ==> !is_white_space(trim_start(s).first()),
    decreases s.len(),
{
    if s.len() > 0 && is_white_space(s.first()) {
        lemma_trim_start_shape(s.drop_first());
        let n = trim_start(s).len();
        assert(s.drop_first().skip(s.len() - 1 - n) =~= s.skip(s.len() - n));
    } else {
        assert(s.skip(0) =~= s);
    }
}

/// What is left of a text without its trailing white space is its beginning.
pub proof fn lemma_trim_end_shape(s: Seq<char>)
    ensures
        trim_end(s).len() <= s.len(),
        trim_end(s) == s.take(trim_end(s).len() as int),
        trim_end(s).len() > 0 ==> !is_white_space(trim_end(s).last()),
    decreases s.len(),
{
    if s.len() > 0 && is_white_space(s.last()) {
        lemma_trim_end_shape(s.drop_last());
        let n = trim_end(s).len() as int;
        assert(s.drop_last().take(n) =~= s.take(n));
    } else {
        assert(s.take(s.len() as int) =~= s);
    }
}

/// A text without white space at either end is left as it is.
pub proof fn lemma_trimmed_stays(s: Seq<char>)
    requires
        s.len() > 0 ==> !is_white_space(s.first()) && !is_white_space(s.last()),
    ensures
        trim(s) == s,
{
}

/// A trimmed text has no white space at either end.
pub proof fn lemma_trim_shape(s: Seq<char>)
    ensures
        trim(s).len() > 0 ==> !is_white_space(trim(s).first()) && !is_white_space(trim(s).last()),
{
    lemma_trim_start_shape(s);
    lemma_trim_end_shape(trim_start(s));
}

/// Trimming twice is trimming once.
pub proof fn lemma_trim_again(s: Seq<char>)
    ensures
        trim(trim(s)) == trim(s),
{
    lemma_trim_shape(s);
    lemma_trimmed_stays(trim(s));
}

/// A joined text begins with its first part.
pub proof fn lemma_join_front(parts: Seq<Seq<char>>, sep: Seq<char>)
    requires
        parts.len() > 1,
    ensures
        join(parts, sep) == parts[0] + sep + join(
            parts.drop_first(),
            sep,
        ),
    decreases parts.len(),
{
    let front = parts.drop_last();
    if parts.len() == 2 {
        assert(join(front, sep) == front[0]);
        assert(parts.drop_first()[0] == parts[1]);
        assert(join(parts.drop_first(), sep) == parts[1]);
        assert(join(parts, sep) =~= parts[0] + sep + parts[1]);
    } else {
        lemma_join_front(front, sep);
        assert(front.drop_first() =~= parts.drop_first().drop_last());
        assert(parts.drop_first().last() == parts.last());
        assert(join(parts, sep) =~= parts[0] + sep + (join(
            parts.drop_first().drop_last(),
            sep,
        ) + sep + parts.last()));
    }
}

/// How far the first word of a text goes.
pub proof fn lemma_word_span_is(s: Seq<char>, n: int)
    requires
        0 <= n <= s.len(),
        forall|j: int| 0 <= j < n ==> !is_white_space(s[j]),
        n < s.len() ==> is_white_space(s[n]),
    ensures
        word_span(s) == n,
    decreases s.len(),
{
    if n > 0 {
        assert(!is_white_space(s[0]));
        assert forall|j: int| 0 <= j < n - 1 implies !is_white_space(s.drop_first()[j]) by {
            assert(!is_white_space(s[j + 1]));
        }
        lemma_word_span_is(s.drop_first(), n - 1);
    }
}

/// Whether a text is a word: not empty, and without white space.
pub open spec fn is_word(s: Seq<char>) -> bool {
    s.len() > 0 && forall|j: int| 0 <= j < s.len() ==> !is_white_space(#[trigger] s[j])
}

proof fn lemma_first_word(s: Seq<char>)
    requires
        s.len() > 0,
        !is_white_space(s.first()),
    ensures
        0 < word_span(s) <= s.len(),
        is_word(s.take(word_span(s) as int)),
    decreases s.len(),
{
    let rest = s.drop_first();
    let n = word_span(s) as int;
    assert(n == 1 + word_span(rest));
    if rest.len() > 0 && !is_white_space(rest.first()) {
        lemma_first_word(rest);
        let w = rest.take(n - 1);
        assert(is_word(w));
        assert forall|j: int| 0 <= j < n implies !is_white_space(#[trigger] s.take(n)[j]) by {
            if j > 0 {
                assert(w[j - 1] == s.take(n)[j]);
            }
        }
    } else {
        assert(word_span(rest) == 0);
    }
}

/// The words of a text are words.
pub proof fn law_words_are_words(s: Seq<char>)
    ensures
        forall|i: int| 0 <= i < words(s).len() ==> is_word(#[trigger] words(s)[i]),
    decreases s.len(),
{
    if s.len() > 0 {
        if is_white_space(s.first()) {
            law_words_are_words(s.drop_first());
            assert(words(s) == words(s.drop_first()));
        } else {
            lemma_first_word(s);
            let n = word_span(s) as int;
            let rest = words(s.skip(n));
            law_words_are_words(s.skip(n));
            assert(words(s) == seq![s.take(n)] + rest);
            assert forall|i: int| 0 <= i < words(s).len() implies is_word(
                #[trigger] words(s)[i],
            ) by {
                if i > 0 {
                    assert(words(s)[i] == rest[i - 1]);
                }
            }
        }
    }
}

/// Words that are joined by spaces are the words of the joined text.
pub proof fn law_joined_words_read_back(parts: Seq<Seq<char>>)
    requires
        forall|i: int| 0 <= i < parts.len() ==> is_word(#[trigger] parts[i]),
    ensures
        words(join(parts, " "@)) == parts,
    decreases parts.len(),
{
    reveal_strlit(" ");
    let sep = " "@;
    let whole = join(parts, sep);
    if parts.len() == 0 {
        assert(words(whole) =~= parts);
    } else {
        let p = parts[0];
        let n = p.len() as int;
        assert(is_word(p));
        assert(!is_white_space(p[0]));
        if parts.len() == 1 {
            lemma_word_span_is(whole, n);
            assert(whole.take(n) =~= p);
            assert(whole.skip(n) =~= Seq::<char>::empty());
            assert(words(whole.skip(n)) =~= Seq::<Seq<char>>::empty());
            assert(words(whole) =~= parts);
        } else {
            let rest = parts.drop_first();
            assert forall|i: int| 0 <= i < rest.len() implies is_word(#[trigger] rest[i]) by {
                assert(is_word(parts[i + 1]));
            }
            law_joined_words_read_back(rest);
            lemma_join_front(parts, sep);
            let tail = join(rest, sep);
            assert(whole == p + sep + tail);
            assert forall|j: int| 0 <= j < n implies !is_white_space(whole[j]) by {
                assert(whole[j] == p[j]);
            }
            assert(whole[n] == ' ');
            lemma_word_span_is(whole, n);
            assert(whole.take(n) =~= p);
            assert(whole.skip(n).first() == ' ');
            assert(whole.skip(n).drop_first() =~= tail);
            assert(words(whole.skip(n)) == rest);
            assert(words(whole) =~= seq![p] + rest);
            assert(seq![p] + rest =~= parts);
        }
    }
}

/// Words that are joined by spaces have no white space at either end.
pub proof fn lemma_joined_words_ends(parts: Seq<Seq<char>>)
    requires
        forall|i: int| 0 <= i < parts.len() ==> is_word(#[trigger] parts[i]),
    ensures
        parts.len() > 0 ==> join(parts, " "@).len() > 0,
        join(parts, " "@).len() > 0 ==> {
            &&& !is_white_space(join(parts, " "@).first())
            &&& !is_white_space(join(parts, " "@).last())
        },
    decreases parts.len(),
{
    if parts.len() > 0 {
        let word = parts[parts.len() - 1];
        assert(is_word(word));
        assert(!is_white_space(word[word.len() - 1]));
        assert(!is_white_space(word[0]));
        if parts.len() > 1 {
            let rest = parts.drop_last();
            assert forall|i: int| 0 <= i < rest.len() implies is_word(#[trigger] rest[i]) by {
                assert(is_word(parts[i]));
            }
            lemma_joined_words_ends(rest);
            assert(join(parts, " "@).first() == join(rest, " "@).first());
            assert(join(parts, " "@).last() == word.last());
        }
    }
}

/// The ASCII characters that are no capitals.
pub open spec fn is_small_ascii(c: char) -> bool {
    c <= '\u{7f}' && !('A' <= c <= 'Z')
}

/// The words of a text are made of the text's characters: of ASCII characters
/// that are no capitals, where the text is.
pub proof fn lemma_words_small(s: Seq<char>)
    requires
        forall|i: int| 0 <= i < s.len() ==> is_small_ascii(#[trigger] s[i]),
    ensures
        forall|k: int, i: int|
            0 <= k < words(s).len() && 0 <= i < words(s)[k].len() ==> is_small_ascii(
                #[trigger] words(s)[k][i],
            ),
    decreases s.len(),
{
    if s.len() > 0 {
        if is_white_space(s.first()) {
            let rest = s.drop_first();
            assert forall|i: int| 0 <= i < rest.len() implies is_small_ascii(
                #[trigger] rest[i],
            ) by {
                assert(is_small_ascii(s[i + 1]));
            }
            lemma_words_small(rest);
            assert(words(s) == words(rest));
        } else {
            lemma_first_word(s);
            let n = word_span(s) as int;
            let rest = s.skip(n);
            assert forall|i: int| 0 <= i < rest.len() implies is_small_ascii(
                #[trigger] rest[i],
            ) by {
                assert(is_small_ascii(s[i + n]));
            }
            lemma_words_small(rest);
            assert(words(s) == seq![s.take(n)] + words(rest));
            assert forall|k: int, i: int|
                0 <= k < words(s).len() && 0 <= i < words(s)[k].len() implies is_small_ascii(
                #[trigger] words(s)[k][i],
            ) by {
                if k == 0 {
                    assert(words(s)[0][i] == s[i]);
                } else {
                    assert(words(s)[k] == words(rest)[k - 1]);
                    assert(is_small_ascii(words(rest)[k - 1][i]));
                }
            }
        }
    }
}

/// Joined by spaces, texts of ASCII characters that are no capitals make such a
/// text.
pub proof fn lemma_join_small(parts: Seq<Seq<char>>)
    requires
        forall|k: int, i: int|
            0 <= k < parts.len() && 0 <= i < parts[k].len() ==> is_small_ascii(
                #[trigger] parts[k][i],
            ),
    ensures
        forall|i: int|
            0 <= i < join(parts, " "@).len() ==> is_small_ascii(#[trigger] join(parts, " "@)[i]),
    decreases parts.len(),
{
    reveal_strlit(" ");
    if parts.len() == 1 {
        assert forall|i: int| 0 <= i < join(parts, " "@).len() implies is_small_ascii(
            #[trigger] join(parts, " "@)[i],
        ) by {
            assert(is_small_ascii(parts[0][i]));
        }
    } else if parts.len() > 1 {
        let rest = parts.drop_last();
        assert forall|k: int, i: int|
            0 <= k < rest.len() && 0 <= i < rest[k].len() implies is_small_ascii(
            #[trigger] rest[k][i],
        ) by {
            assert(is_small_ascii(parts[k][i]));
        }
        lemma_join_small(rest);
        let head = join(rest, " "@);
        let last = parts.len() - 1;
        assert forall|i: int| 0 <= i < join(parts, " "@).len() implies is_small_ascii(
            #[trigger] join(parts, " "@)[i],
        ) by {
            if i < head.len() {
                assert(is_small_ascii(head[i]));
            } else if i > head.len() {
                assert(is_small_ascii(parts[last][i - head.len() - 1]));
            }
        }
    }
}

/// Whether a character is white space.
pub fn is_space(c: char) -> (r: bool)
    ensures
        r == is_white_space(c),
{
    ('\u{9}' <= c && c <= '\u{d}') || c == ' ' || c == '\u{85}' || c == '\u{a0}' || c == '\u{1680}'
        || ('\u{2000}' <= c && c <= '\u{200a}') || c == '\u{2028}' || c == '\u{2029}' || c
        == '\u{202f}' || c == '\u{205f}' || c == '\u{3000}'
}

/// The characters of a text.
pub fn chars_of(s: &str) -> (r: Vec<char>)
    ensures
        r@ == s@,
{
    let mut out: Vec<char> = Vec::new();
    for c in it: s.chars()
        invariant
            it.seq() == s@,
            out@ == it.seq().take(it.index() as int),
    {
        out.push(c);
    }
    assert(s@.take(s@.len() as int) =~= s@);
    out
}

/// The text that is made of the characters `cs`.
pub fn text_of(cs: &[char]) -> (r: String)
    ensures
        r@ == cs@,
{
    let mut out = String::new();
    let mut i: usize = 0;
    while i < cs.len()
        invariant
            i <= cs.len(),
            out@ == cs@.take(i as int),
        decreases cs.len() - i,
    {
        out.push(cs[i]);
        assert(cs@.take(i + 1) =~= cs@.take(i as int).push(cs@[i as int]));
        i = i + 1;
    }
    assert(cs@.take(cs@.len() as int) =~= cs@);
    out
}

/// Whether two texts are the same.
pub fn same_text(a: &str, b: &str) -> (r: bool)
    ensures
        r == (a@ == b@),
{
    let left: Vec<char> = chars_of(a);
    let right: Vec<char> = chars_of(b);
    if left.len() != right.len() {
        return false;
    }
    let mut i: usize = 0;
    while i < left.len()
        invariant
            i <= left.len(),
            left.len() == right.len(),
            left@ == a@,
            right@ == b@,
            forall|j: int| 0 <= j < i ==> left@[j] == right@[j],
        decreases left.len() - i,
    {
        if left[i] != right[i] {
            return false;
        }
        i = i + 1;
    }
    assert(left@ =~= right@);
    true
}

/// Whether a text that may be missing is the text `key`.
pub fn is_text(current: &Option<String>, key: &str) -> (r: bool)
    ensures
        r == (current.deep_view() == Some(key@)),
{
    match current {
        Some(text) => same_text(text.as_str(), key),
        None => false,
    }
}

fn small_letter(c: char) -> (r: char)
    ensures
        r == ascii_small(c),
{
    if 'A' <= c && c <= 'Z' {
        (c as u8 + 32) as char
    } else {
        c
    }
}

/// Whether two texts are the same but for the case of ASCII letters.
pub fn eq_ignore_ascii_case(a: &str, b: &str) -> (r: bool)
    ensures
        r == (ascii_folded(a@) == ascii_folded(b@)),
{
    let left: Vec<char> = chars_of(a);
    let right: Vec<char> = chars_of(b);
    if left.len() != right.len() {
        assert(ascii_folded(a@).len() != ascii_folded(b@).len());
        return false;
    }
    let mut i: usize = 0;
    while i < left.len()
        invariant
            i <= left.len(),
            left.len() == right.len(),
            left@ == a@,
            right@ == b@,
            forall|j: int|
                0 <= j < i ==> ascii_small(#[trigger] left@[j]) == ascii_small(right@[j]),
        decreases left.len() - i,
    {
        if small_letter(left[i]) != small_letter(right[i]) {
            assert(ascii_folded(a@)[i as int] != ascii_folded(b@)[i as int]);
            return false;
        }
        i = i + 1;
    }
    assert(ascii_folded(a@) =~= ascii_folded(b@));
    true
}

/// The part of `cs` between the white space at both ends.
pub fn trim_chars(cs: &[char]) -> (r: &[char])
    ensures
        r@ == trim(cs@),
{
    let n: usize = cs.len();
    let mut lo: usize = 0;
    while lo < n && is_space(cs[lo])
        invariant
            lo <= n,
            n == cs@.len(),
            forall|j: int| 0 <= j < lo ==> is_white_space(cs@[j]),
        decreases n - lo,
    {
        lo = lo + 1;
    }
    proof {
        lemma_trim_start_is(cs@, lo as int);
    }
    let mut hi: usize = n;
    while hi > lo && is_space(cs[hi - 1])
        invariant
            lo <= hi <= n,
            n == cs@.len(),
            forall|j: int| hi <= j < n ==> is_white_space(cs@[j]),
        decreases hi,
    {
        hi = hi - 1;
    }
    proof {
        let rest = cs@.skip(lo as int);
        assert forall|j: int| hi - lo <= j < rest.len() implies is_white_space(rest[j]) by {
            assert(is_white_space(cs@[j + lo]));
        }
        lemma_trim_end_is(rest, hi - lo);
        assert(rest.take(hi - lo) =~= cs@.subrange(lo as int, hi as int));
    }
    vstd::slice::slice_subrange(cs, lo, hi)
}

/// A text without the white space at both ends.
pub fn trim_text(s: &str) -> (r: String)
    ensures
        r@ == trim(s@),
{
    let cs: Vec<char> = chars_of(s);
    text_of(trim_chars(cs.as_slice()))
}

/// How many characters come before the first `sep`.
pub fn find_char(cs: &[char], sep: char) -> (r: usize)
    ensures
        r == span_before(cs@, sep),
        r <= cs@.len(),
{
    let mut i: usize = 0;
    while i < cs.len() && cs[i] != sep
        invariant
            i <= cs@.len(),
            forall|j: int| 0 <= j < i ==> cs@[j] != sep,
        decreases cs.len() - i,
    {
        i = i + 1;
    }
    proof {
        lemma_span_before_is(cs@, sep, i as int);
    }
    i
}

/// The parts of `cs` before and after the first `sep`.
pub fn split_once_chars(cs: &[char], sep: char) -> (r: Option<(&[char], &[char])>)
    ensures
        match r {
            Some((a, b)) => split_once(cs@, sep) == Some((a@, b@)),
            None => split_once(cs@, sep) is None,
        },
{
    let i: usize = find_char(cs, sep);
    if i < cs.len() {
        proof {
            assert(cs@.subrange(0, i as int) =~= cs@.take(i as int));
            assert(cs@.subrange(i + 1, cs@.len() as int) =~= cs@.skip(i + 1));
        }
        Some(
            (
                vstd::slice::slice_subrange(cs, 0, i),
                vstd::slice::slice_subrange(cs, i + 1, cs.len()),
            ),
        )
    } else {
        None
    }
}

/// The lines of a text.
pub fn lines_of(s: &str) -> (r: Vec<String>)
    ensures
        r.deep_view() == lines(s@),
{
    let cs: Vec<char> = chars_of(s);
    let n: usize = cs.len();
    let mut out: Vec<String> = Vec::new();
    let mut start: usize = 0;
    proof {
        assert(cs@.skip(0) =~= cs@);
        assert(out.deep_view() + lines(s@) =~= lines(s@));
    }
    while start < n
        invariant
            start <= n,
            n == cs@.len(),
            out.deep_view() + lines(cs@.skip(start as int)) == lines(cs@),
        decreases n - start,
    {
        let rest: &[char] = vstd::slice::slice_subrange(cs.as_slice(), start, n);
        assert(rest@ =~= cs@.skip(start as int));
        let i: usize = find_char(rest, '\n');
        let ghost before = out.deep_view();
        if i >= rest.len() {
            out.push(text_of(rest));
            assert(out.deep_view() =~= before.push(rest@));
            start = n;
            assert(cs@.skip(start as int) =~= Seq::<char>::empty());
            assert(lines(cs@.skip(start as int)) =~= Seq::<Seq<char>>::empty());
            assert(out.deep_view() + lines(cs@.skip(start as int)) =~= before + lines(rest@));
        } else {
            let end: usize = if i > 0 && rest[i - 1] == '\r' {
                i - 1
            } else {
                i
            };
            let line: &[char] = vstd::slice::slice_subrange(rest, 0, end);
            proof {
                let full = rest@.take(i as int);
                assert(line@ =~= without_return(full));
                assert(rest@.skip(i + 1) =~= cs@.skip(start + i + 1));
            }
            out.push(text_of(line));
            assert(out.deep_view() =~= before.push(line@));
            start = start + i + 1;
            assert(out.deep_view() + lines(cs@.skip(start as int)) =~= before + lines(rest@));
        }
    }
    assert(cs@.skip(start as int) =~= Seq::<char>::empty());
    assert(lines(cs@.skip(start as int)) =~= Seq::<Seq<char>>::empty());
    assert(out.deep_view() + lines(cs@.skip(start as int)) =~= out.deep_view());
    out
}

/// The words of a text.
pub fn words_of(s: &str) -> (r: Vec<String>)
    ensures
        r.deep_view() == words(s@),
{
    let cs: Vec<char> = chars_of(s);
    let n: usize = cs.len();
    let mut out: Vec<String> = Vec::new();
    let mut start: usize = 0;
    proof {
        assert(cs@.skip(0) =~= cs@);
        assert(out.deep_view() + words(s@) =~= words(s@));
    }
    while start < n
        invariant
            start <= n,
            n == cs@.len(),
            out.deep_view() + words(cs@.skip(start as int)) == words(cs@),
        decreases n - start,
    {
        let ghost rest = cs@.skip(start as int);
        if is_space(cs[start]) {
            assert(rest.drop_first() =~= cs@.skip(start + 1));
            start = start + 1;
        } else {
            let mut end: usize = start;
            while end < n && !is_space(cs[end])
                invariant
                    start <= end <= n,
                    n == cs@.len(),
                    forall|j: int| start <= j < end ==> !is_white_space(cs@[j]),
                decreases n - end,
            {
                end = end + 1;
            }
            proof {
                assert forall|j: int| 0 <= j < end - start implies !is_white_space(rest[j]) by {
                    assert(!is_white_space(cs@[j + start]));
                }
                lemma_word_span_is(rest, end - start);
                assert(rest.skip(end - start) =~= cs@.skip(end as int));
                assert(rest.take(end - start) =~= cs@.subrange(start as int, end as int));
            }
            let ghost before = out.deep_view();
            out.push(text_of(vstd::slice::slice_subrange(cs.as_slice(), start, end)));
            assert(out.deep_view() =~= before.push(rest.take(end - start)));
            assert(out.deep_view() + words(cs@.skip(end as int)) =~= before + words(rest));
            start = end;
        }
    }
    assert(cs@.skip(start as int) =~= Seq::<char>::empty());
    assert(words(cs@.skip(start as int)) =~= Seq::<Seq<char>>::empty());
    assert(out.deep_view() + words(cs@.skip(start as int)) =~= out.deep_view());
    out
}

/// The texts `parts` with `sep` between each two.
pub fn join_texts(parts: &Vec<String>, sep: &str) -> (r: String)
    ensures
        r@ == join(parts.deep_view(), sep@),
{
    let ghost all = parts.deep_view();
    let mut out = String::new();
    let mut i: usize = 0;
    assert(all.take(0) =~= Seq::<Seq<char>>::empty());
    while i < parts.len()
        invariant
            i <= parts.len(),
            all == parts.deep_view(),
            out@ == join(all.take(i as int), sep@),
        decreases parts.len() - i,
    {
        proof {
            assert(all.take(i + 1).drop_last() =~= all.take(i as int));
            assert(all.take(i + 1).last() == parts@[i as int]@);
        }
        if i > 0 {
            out.append(sep);
        }
        out.append(parts[i].as_str());
        assert(out@ =~= join(all.take(i + 1), sep@));
        i = i + 1;
    }
    assert(all.take(i as int) =~= all);
    out
}

} // verus!
