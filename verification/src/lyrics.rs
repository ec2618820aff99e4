//! Lyrics candidates and what they parse to.
use std::collections::BTreeSet;
use vstd::prelude::*;

use crate::digits::signed_decimal_text;
pub use crate::lrc::LyricLine;
use crate::lrc::{insert_in_order, lrc_line_fits, parse_lrc_line};
use crate::text::{join_texts, lines_of, trim_text};

verus! {

/// How long a candidate's track plays.
#[derive(Debug, Clone, Copy, PartialEq, Eq, Structural)]
pub enum CandidateDuration {
    /// Seconds as a lyrics service reports them: the bits of a 64-bit float.
    Reported(u64),
    /// The length of the playing track in milliseconds.
    Track(u64),
}

/// A text of lyrics that a lyrics service offers for a track.
#[derive(Debug)]
pub struct LyricsCandidate {
    pub id: i64,
    pub name: String,
    pub track_name: String,
    pub artist_name: String,
    pub album_name: String,
    pub duration: CandidateDuration,
    pub instrumental: bool,
    pub plain_lyrics: String,
    pub synced_lyrics: String,
    pub lyrics_file: Option<String>,
}

/// What a `LyricsCandidate` stands for.
#[verifier::ext_equal]
pub struct CandidateModel {
    pub id: i64,
    pub name: Seq<char>,
    pub track_name: Seq<char>,
    pub artist_name: Seq<char>,
    pub album_name: Seq<char>,
    pub duration: CandidateDuration,
    pub instrumental: bool,
    pub plain_lyrics: Seq<char>,
    pub synced_lyrics: Seq<char>,
    pub lyrics_file: Option<Seq<char>>,
}

impl View for LyricsCandidate {
    type V = CandidateModel;

    open spec fn view(&self) -> CandidateModel {
        CandidateModel {
            id: self.id,
            name: self.name@,
            track_name: self.track_name@,
            artist_name: self.artist_name@,
            album_name: self.album_name@,
            duration: self.duration,
            instrumental: self.instrumental,
            plain_lyrics: self.plain_lyrics@,
            synced_lyrics: self.synced_lyrics@,
            lyrics_file: self.lyrics_file.deep_view(),
        }
    }
}

impl DeepView for LyricsCandidate {
    type V = CandidateModel;

    open spec fn deep_view(&self) -> CandidateModel {
        self@
    }
}

impl Clone for LyricsCandidate {
    fn clone(&self) -> (r: Self)
        ensures
            r@ == self@,
    {
        LyricsCandidate {
            id: self.id,
            name: self.name.clone(),
            track_name: self.track_name.clone(),
            artist_name: self.artist_name.clone(),
            album_name: self.album_name.clone(),
            duration: self.duration,
            instrumental: self.instrumental,
            plain_lyrics: self.plain_lyrics.clone(),
            synced_lyrics: self.synced_lyrics.clone(),
            lyrics_file: match &self.lyrics_file {
                Some(file) => Some(file.clone()),
                None => None,
            },
        }
    }
}

/// The parts of a candidate's title that are there, in their order.
pub open spec fn title_parts(c: CandidateModel) -> Seq<Seq<char>> {
    let artist = if c.artist_name.len() > 0 {
        seq![c.artist_name]
    } else {
        Seq::empty()
    };
    let track = if c.track_name.len() > 0 {
        seq![c.track_name]
    } else {
        Seq::empty()
    };
    let album = if c.album_name.len() > 0 {
        seq![c.album_name]
    } else {
        Seq::empty()
    };
    artist + track + album
}

/// What the list of candidates shows for a candidate.
pub open spec fn title_of(c: CandidateModel) -> Seq<char> {
    let parts = title_parts(c);
    let label = if parts.len() == 0 {
        "id "@ + crate::digits::signed_decimal(c.id as int)
    } else {
        crate::text::join(parts, " - "@)
    };
    if crate::text::trim(c.synced_lyrics).len() > 0 {
        label + " [synced]"@
    } else if crate::text::trim(c.plain_lyrics).len() > 0 {
        label + " [plain]"@
    } else {
        label
    }
}

impl LyricsCandidate {
    /// Whether the candidate has synchronised lyrics.
    pub fn has_synced(&self) -> (r: bool)
        ensures
            r == (crate::text::trim(self@.synced_lyrics).len() > 0),
    {
        !trim_text(self.synced_lyrics.as_str()).as_str().is_empty()
    }

    /// Whether the candidate has lyrics without times.
    pub fn has_plain(&self) -> (r: bool)
        ensures
            r == (crate::text::trim(self@.plain_lyrics).len() > 0),
    {
        !trim_text(self.plain_lyrics.as_str()).as_str().is_empty()
    }

    /// The title that the list of candidates shows.
    pub fn display_title(&self) -> (r: String)
        ensures
            r@ == title_of(self@),
    {
        let mut parts: Vec<String> = Vec::new();
        let ghost c = self@;
        let ghost none = Seq::<Seq<char>>::empty();
        if !self.artist_name.as_str().is_empty() {
            parts.push(self.artist_name.clone());
            assert(parts.deep_view() =~= seq![c.artist_name]);
        } else {
            assert(parts.deep_view() =~= none);
        }
        let ghost one = parts.deep_view();
        if !self.track_name.as_str().is_empty() {
            parts.push(self.track_name.clone());
            assert(parts.deep_view() =~= one + seq![c.track_name]);
        } else {
            assert(parts.deep_view() =~= one + none);
        }
        let ghost two = parts.deep_view();
        if !self.album_name.as_str().is_empty() {
            parts.push(self.album_name.clone());
            assert(parts.deep_view() =~= two + seq![c.album_name]);
        } else {
            assert(parts.deep_view() =~= two + none);
        }
        assert(parts.deep_view() =~= title_parts(c));
        let mut label: String = if parts.len() == 0 {
            let mut id = "id ".to_owned();
            id.append(signed_decimal_text(self.id).as_str());
            id
        } else {
            join_texts(&parts, " - ")
        };
        if self.has_synced() {
            label.append(" [synced]");
        } else if self.has_plain() {
            label.append(" [plain]");
        }
        label
    }
}

/// What a candidate's lyrics parse to.
#[derive(Debug)]
pub struct ParsedLyrics {
    pub lines: Vec<LyricLine>,
    pub plain_lines: Vec<String>,
}

/// What `ParsedLyrics` stand for.
#[verifier::ext_equal]
pub struct LyricsModel {
    pub lines: Seq<crate::lrc::LineModel>,
    pub plain_lines: Seq<Seq<char>>,
}

impl View for ParsedLyrics {
    type V = LyricsModel;

    open spec fn view(&self) -> LyricsModel {
        LyricsModel {
            lines: self.lines.deep_view(),
            plain_lines: self.plain_lines.deep_view(),
        }
    }
}

impl DeepView for ParsedLyrics {
    type V = LyricsModel;

    open spec fn deep_view(&self) -> LyricsModel {
        self@
    }
}

impl Clone for ParsedLyrics {
    fn clone(&self) -> (r: Self)
        ensures
            r@ == self@,
    {
        let lines: Vec<LyricLine> = self.lines.clone();
        assert(lines.deep_view() =~= self.lines.deep_view());
        let plain_lines: Vec<String> = self.plain_lines.clone();
        assert(plain_lines.deep_view() =~= self.plain_lines.deep_view());
        ParsedLyrics { lines, plain_lines }
    }
}

/// The trimmed texts of `ls` that are not empty.
pub open spec fn trimmed_lines(ls: Seq<Seq<char>>) -> Seq<Seq<char>>
    decreases ls.len(),
{
    if ls.len() == 0 {
        Seq::empty()
    } else {
        let before = trimmed_lines(ls.drop_last());
        let line = crate::text::trim(ls.last());
        if line.len() > 0 {
            before.push(line)
        } else {
            before
        }
    }
}

/// What a candidate's lyrics parse to: the synchronised lines in the order of
/// their times, and the plain lines.
pub open spec fn parsed(c: CandidateModel) -> LyricsModel {
    LyricsModel {
        lines: crate::lrc::sorted_lines(crate::lrc::lrc_lines(crate::text::lines(c.synced_lyrics))),
        plain_lines: trimmed_lines(crate::text::lines(c.plain_lyrics)),
    }
}

/// Whether every synchronised line of a candidate has a meaning.
pub open spec fn candidate_fits(c: CandidateModel) -> bool {
    let ls = crate::text::lines(c.synced_lyrics);
    forall|i: int| 0 <= i < ls.len() ==> !crate::lrc::lrc_line_faults(#[trigger] ls[i])
}

/// Whether every synchronised line of a candidate has a meaning.
pub fn lyrics_fit(candidate: &LyricsCandidate) -> (r: bool)
    ensures
        r == candidate_fits(candidate@),
{
    let texts: Vec<String> = lines_of(candidate.synced_lyrics.as_str());
    let ghost ls = crate::text::lines(candidate@.synced_lyrics);
    let mut i: usize = 0;
    while i < texts.len()
        invariant
            i <= texts.len(),
            texts.deep_view() == ls,
            ls == crate::text::lines(candidate@.synced_lyrics),
            forall|j: int| 0 <= j < i ==> !crate::lrc::lrc_line_faults(#[trigger] ls[j]),
        decreases texts.len() - i,
    {
        assert(ls[i as int] == texts@[i as int]@);
        if !lrc_line_fits(texts[i].as_str()) {
            return false;
        }
        i = i + 1;
    }
    true
}

/// The trimmed lines of a text that are not empty.
pub fn plain_lines_of(s: &str) -> (r: Vec<String>)
    ensures
        r.deep_view() == trimmed_lines(crate::text::lines(s@)),
{
    let texts: Vec<String> = lines_of(s);
    let ghost ls = crate::text::lines(s@);
    let mut out: Vec<String> = Vec::new();
    let mut i: usize = 0;
    assert(out.deep_view() =~= trimmed_lines(ls.take(0)));
    while i < texts.len()
        invariant
            i <= texts.len(),
            texts.deep_view() == ls,
            out.deep_view() == trimmed_lines(ls.take(i as int)),
        decreases texts.len() - i,
    {
        let line: String = trim_text(texts[i].as_str());
        let ghost before = out.deep_view();
        proof {
            assert(ls.take(i + 1).drop_last() =~= ls.take(i as int));
            assert(ls.take(i + 1).last() == texts@[i as int]@);
        }
        if !line.as_str().is_empty() {
            let ghost l = line@;
            out.push(line);
            assert(out.deep_view() =~= before.push(l));
        }
        i = i + 1;
    }
    assert(ls.take(i as int) =~= ls);
    out
}

/// Reads the lyrics of a candidate.
pub fn parse_candidate(candidate: &LyricsCandidate) -> (r: ParsedLyrics)
    requires
        candidate_fits(candidate@),
    ensures
        r@ == parsed(candidate@),
        crate::lrc::in_order(r@.lines),
{
    let texts: Vec<String> = lines_of(candidate.synced_lyrics.as_str());
    let ghost ls = crate::text::lines(candidate@.synced_lyrics);
    let mut lines: Vec<LyricLine> = Vec::new();
    let mut i: usize = 0;
    assert(lines.deep_view() =~= crate::lrc::sorted_lines(crate::lrc::lrc_lines(ls.take(0))));
    while i < texts.len()
        invariant
            i <= texts.len(),
            texts.deep_view() == ls,
            forall|j: int| 0 <= j < ls.len() ==> !crate::lrc::lrc_line_faults(#[trigger] ls[j]),
            lines.deep_view() == crate::lrc::sorted_lines(
                crate::lrc::lrc_lines(ls.take(i as int)),
            ),
        decreases texts.len() - i,
    {
        proof {
            assert(ls[i as int] == texts@[i as int]@);
            assert(ls.take(i + 1).drop_last() =~= ls.take(i as int));
            assert(ls.take(i + 1).last() == texts@[i as int]@);
        }
        let ghost known = crate::lrc::lrc_lines(ls.take(i as int));
        match parse_lrc_line(texts[i].as_str()) {
            Some(line) => {
                assert(known.push(line@).drop_last() =~= known);
                insert_in_order(&mut lines, line);
            },
            None => {},
        }
        i = i + 1;
    }
    proof {
        assert(ls.take(i as int) =~= ls);
        crate::lrc::law_sorted_in_order(crate::lrc::lrc_lines(ls));
    }
    ParsedLyrics { lines, plain_lines: plain_lines_of(candidate.plain_lyrics.as_str()) }
}

/// Whether a candidate of `s` has the identifier `id`.
pub open spec fn has_id(s: Seq<CandidateModel>, id: i64) -> bool {
    exists|i: int| 0 <= i < s.len() && (#[trigger] s[i]).id == id
}

/// `s` with only the first candidate of each identifier.
pub open spec fn first_of_each_id(s: Seq<CandidateModel>) -> Seq<CandidateModel>
    decreases s.len(),
{
    if s.len() == 0 {
        Seq::empty()
    } else {
        let before = first_of_each_id(s.drop_last());
        if has_id(s.drop_last(), s.last().id) {
            before
        } else {
            before.push(s.last())
        }
    }
}

/// Whether no two candidates of `s` have one identifier.
pub open spec fn distinct_ids(s: Seq<CandidateModel>) -> bool {
    forall|i: int, j: int|
        0 <= i < j < s.len() ==> (#[trigger] s[i]).id != (#[trigger] s[j]).id
}

/// The candidates that are kept have distinct identifiers, and no identifier
/// is lost.
pub proof fn law_first_of_each_id(s: Seq<CandidateModel>)
    ensures
        distinct_ids(first_of_each_id(s)),
        forall|id: i64| #[trigger] has_id(first_of_each_id(s), id) == has_id(s, id),
    decreases s.len(),
{
    if s.len() > 0 {
        let rest = s.drop_last();
        law_first_of_each_id(rest);
        let kept = first_of_each_id(rest);
        let all = first_of_each_id(s);
        if !has_id(rest, s.last().id) {
            assert forall|i: int, j: int| 0 <= i < j < all.len() implies (
            #[trigger] all[i]).id != (#[trigger] all[j]).id by {
                if j < kept.len() {
                    assert(kept[i].id != kept[j].id);
                } else {
                    assert(kept[i].id == all[i].id);
                    assert(has_id(kept, all[i].id));
                    assert(has_id(rest, all[i].id));
                }
            }
        }
        assert forall|id: i64| #[trigger] has_id(all, id) == has_id(s, id) by {
            assert(has_id(kept, id) == has_id(rest, id));
            if has_id(rest, id) {
                let k = choose|k: int| 0 <= k < rest.len() && (#[trigger] rest[k]).id == id;
                assert(s[k].id == id);
                let m = choose|m: int| 0 <= m < kept.len() && (#[trigger] kept[m]).id == id;
                assert(all[m].id == id);
            }
            if has_id(s, id) && !has_id(rest, id) {
                let k = choose|k: int| 0 <= k < s.len() && (#[trigger] s[k]).id == id;
                if k < rest.len() {
                    assert(rest[k].id == id);
                }
                assert(s.last().id == id);
                assert(all[all.len() - 1].id == id);
            }
            if has_id(all, id) && !has_id(rest, id) {
                let m = choose|m: int| 0 <= m < all.len() && (#[trigger] all[m]).id == id;
                if m < kept.len() {
                    assert(kept[m].id == id);
                }
                assert(s[s.len() - 1].id == id);
            }
        }
    }
}

/// Candidates with distinct identifiers are all kept.
pub proof fn law_distinct_ids_stay(s: Seq<CandidateModel>)
    requires
        distinct_ids(s),
    ensures
        first_of_each_id(s) == s,
    decreases s.len(),
{
    if s.len() > 0 {
        let rest = s.drop_last();
        assert forall|i: int, j: int| 0 <= i < j < rest.len() implies (
        #[trigger] rest[i]).id != (#[trigger] rest[j]).id by {
            assert(s[i].id != s[j].id);
        }
        law_distinct_ids_stay(rest);
        if has_id(rest, s.last().id) {
            let k = choose|k: int| 0 <= k < rest.len() && (#[trigger] rest[k]).id == s.last().id;
            assert(s[k].id != s[s.len() - 1].id);
        }
        assert(rest.push(s.last()) =~= s);
    }
}

/// Notes an identifier, and says whether it is new.
fn note_id(seen: &mut BTreeSet<i64>, id: i64) -> (r: bool)
    ensures
        final(seen)@ == old(seen)@.insert(id),
        r == !old(seen)@.contains(id),
{
    broadcast use vstd::laws_cmp::group_laws_cmp;

    seen.insert(id)
}

/// Drops every candidate whose identifier a candidate before it has.
pub fn dedup_candidates(candidates: &mut Vec<LyricsCandidate>)
    ensures
        final(candidates).deep_view() == first_of_each_id(old(candidates).deep_view()),
{
    let ghost all = candidates.deep_view();
    let ghost mut done: int = 0;
    let mut seen: BTreeSet<i64> = BTreeSet::new();
    let mut i: usize = 0;
    assert(candidates.deep_view() =~= first_of_each_id(all.take(0)) + all.skip(0));
    while i < candidates.len()
        invariant
            0 <= done <= all.len(),
            i <= candidates.len(),
            candidates.len() - i == all.len() - done,
            first_of_each_id(all.take(done)).len() == i,
            candidates.deep_view() == first_of_each_id(all.take(done)) + all.skip(done),
            forall|id: i64| #[trigger] seen@.contains(id) == has_id(all.take(done), id),
        decreases candidates.len() - i,
    {
        let ghost before = candidates.deep_view();
        let ghost known = all.take(done);
        let ghost kept = first_of_each_id(known);
        let id: i64 = candidates[i].id;
        proof {
            assert(before[i as int] == candidates@[i as int]@);
            assert(before[i as int] == all[done]);
            assert(all.take(done + 1).drop_last() =~= known);
            assert(all.take(done + 1).last() == all[done]);
            assert forall|x: i64| has_id(all.take(done + 1), x) == (has_id(known, x) || x == id) by {
                let next = all.take(done + 1);
                if has_id(known, x) {
                    let k = choose|k: int| 0 <= k < known.len() && (#[trigger] known[k]).id == x;
                    assert(next[k].id == x);
                }
                if x == id {
                    assert(next[done].id == x);
                }
                if has_id(next, x) && x != id {
                    let k = choose|k: int| 0 <= k < next.len() && (#[trigger] next[k]).id == x;
                    assert(known[k].id == x);
                }
            }
        }
        if note_id(&mut seen, id) {
            i = i + 1;
            proof {
                assert(before =~= kept.push(all[done]) + all.skip(done + 1));
            }
        } else {
            let removed = candidates.remove(i);
            proof {
                assert(candidates.deep_view() =~= before.remove(i as int));
                assert(before.remove(i as int) =~= kept + all.skip(done + 1));
            }
        }
        proof {
            done = done + 1;
        }
    }
    proof {
        assert(all.take(done) =~= all);
        assert(candidates.deep_view() =~= first_of_each_id(all));
    }
}

/// Why there are no lyrics.
#[derive(Debug, Clone, Copy, PartialEq, Eq, Structural)]
pub enum LyricsError {
    /// The search gave nothing.
    NoCandidates,
}

impl LyricsError {
    /// The text that is shown for the error.
    pub fn message(self) -> (r: String)
        ensures
            r@ == "no lyrics candidates found"@,
    {
        "no lyrics candidates found".to_owned()
    }
}

/// The candidates that a search offers: the first of each identifier.
pub fn accept_search_results(found: Vec<LyricsCandidate>) -> (r: Result<
    Vec<LyricsCandidate>,
    LyricsError,
>)
    ensures
        match r {
            Ok(kept) => found@.len() > 0 && kept.deep_view() == first_of_each_id(
                found.deep_view(),
            ) && kept@.len() > 0,
            Err(e) => found@.len() == 0 && e == LyricsError::NoCandidates,
        },
{
    let mut candidates = found;
    dedup_candidates(&mut candidates);
    proof {
        let all = found.deep_view();
        law_first_of_each_id(all);
        if all.len() > 0 {
            assert(has_id(all, all[0].id));
            assert(has_id(first_of_each_id(all), all[0].id));
        }
        assert(candidates.deep_view().len() == candidates@.len());
    }
    if candidates.len() == 0 {
        Err(LyricsError::NoCandidates)
    } else {
        Ok(candidates)
    }
}

/// The address of a lyrics request, for an artist and a title that are escaped
/// for use in an address.
pub fn lyrics_url(path: &str, artist: &str, title: &str) -> (r: String)
    ensures
        r@ == "https://lrclib.net"@ + path@ + "?artist_name="@ + artist@ + "&track_name="@ + title@,
{
    let mut url = "https://lrclib.net".to_owned();
    url.append(path);
    url.append("?artist_name=");
    url.append(artist);
    url.append("&track_name=");
    url.append(title);
    url
}

} // verus!
