//! What is playing, which lyrics are shown, and what is being fetched.
use vstd::prelude::*;

use crate::lyrics::{lyrics_fit, parse_candidate, LyricsCandidate, ParsedLyrics};
use crate::spotify::{SpotifySnapshot, TrackInfo};
use crate::storage::{to_signed, LyricsSource};
use crate::text::{eq_ignore_ascii_case, is_text};

verus! {

/// The state between two events.
#[derive(Debug)]
pub struct RuntimeState {
    pub current_track_key: Option<String>,
    pub current_track: Option<TrackInfo>,
    pub current_candidates: Vec<LyricsCandidate>,
    pub selected_candidate_id: Option<i64>,
    pub selected_lyrics: Option<ParsedLyrics>,
    pub current_line_index: usize,
    pub loading_best: Option<String>,
    pub loading_search: Option<String>,
    pub user_scrolled: bool,
    pub fetch_generation: u64,
}

/// What a `RuntimeState` stands for.
#[verifier::ext_equal]
pub struct StateModel {
    pub current_track_key: Option<Seq<char>>,
    pub current_track: Option<crate::spotify::TrackModel>,
    pub current_candidates: Seq<crate::lyrics::CandidateModel>,
    pub selected_candidate_id: Option<i64>,
    pub selected_lyrics: Option<crate::lyrics::LyricsModel>,
    pub current_line_index: int,
    pub loading_best: Option<Seq<char>>,
    pub loading_search: Option<Seq<char>>,
    pub user_scrolled: bool,
    pub fetch_generation: u64,
}

impl View for RuntimeState {
    type V = StateModel;

    open spec fn view(&self) -> StateModel {
        StateModel {
            current_track_key: self.current_track_key.deep_view(),
            current_track: self.current_track.deep_view(),
            current_candidates: self.current_candidates.deep_view(),
            selected_candidate_id: self.selected_candidate_id,
            selected_lyrics: self.selected_lyrics.deep_view(),
            current_line_index: self.current_line_index as int,
            loading_best: self.loading_best.deep_view(),
            loading_search: self.loading_search.deep_view(),
            user_scrolled: self.user_scrolled,
            fetch_generation: self.fetch_generation,
        }
    }
}

impl StateModel {
    /// What holds of every state: a track has a key and a key a track; shown
    /// lyrics belong to a selected candidate and are in the order of their
    /// times; and the current line is the first one or one of theirs.
    pub open spec fn wf(self) -> bool {
        &&& self.current_track_key is Some <==> self.current_track is Some
        &&& self.selected_candidate_id is Some <==> self.selected_lyrics is Some
        &&& self.selected_lyrics matches Some(l) ==> crate::lrc::in_order(l.lines)
        &&& self.current_line_index == 0 || (self.selected_lyrics matches Some(l) && 0
            <= self.current_line_index < l.lines.len())
    }
}

/// The state at the start.
pub open spec fn initial_state() -> StateModel {
    StateModel {
        current_track_key: None,
        current_track: None,
        current_candidates: Seq::empty(),
        selected_candidate_id: None,
        selected_lyrics: None,
        current_line_index: 0,
        loading_best: None,
        loading_search: None,
        user_scrolled: false,
        fetch_generation: 0,
    }
}

/// The state when nothing plays any more.
pub open spec fn cleared(m: StateModel) -> StateModel {
    StateModel {
        user_scrolled: m.user_scrolled,
        fetch_generation: m.fetch_generation,
        ..initial_state()
    }
}

/// The number of the next round of fetches.
pub open spec fn next_generation(n: u64) -> u64 {
    if n < u64::MAX {
        (n + 1) as u64
    } else {
        n
    }
}

/// The state when another track, or the same one afresh, is looked up.
pub open spec fn reset_to(
    m: StateModel,
    track: crate::spotify::TrackModel,
    key: Seq<char>,
) -> StateModel {
    StateModel {
        current_track_key: Some(key),
        current_track: Some(track),
        fetch_generation: next_generation(m.fetch_generation),
        ..cleared(m)
    }
}

/// The key under which lyrics from a source are kept, for the key of a track.
pub open spec fn source_key(source: LyricsSource, track_key: Seq<char>) -> Seq<char> {
    crate::storage::source_name(source) + ":"@ + track_key
}

/// The key under which the lyrics of a track from a source are kept.
pub open spec fn active_key(source: LyricsSource, track: crate::spotify::TrackModel) -> Seq<char> {
    source_key(source, crate::spotify::key_of(track))
}

/// The state after a track was seen playing.
pub open spec fn observed(
    m: StateModel,
    track: crate::spotify::TrackModel,
    key: Seq<char>,
) -> StateModel {
    if m.current_track_key == Some(key) {
        StateModel { current_track: Some(track), ..m }
    } else {
        reset_to(m, track, key)
    }
}

/// The number of candidates before the first one with the identifier `id`.
pub open spec fn id_position(s: Seq<crate::lyrics::CandidateModel>, id: i64) -> nat
    decreases s.len(),
{
    if s.len() == 0 || s.first().id == id {
        0
    } else {
        1 + id_position(s.drop_first(), id)
    }
}

/// The place of the candidate to show: the first one with the wanted
/// identifier, else the first one of all.
pub open spec fn picked(
    s: Seq<crate::lyrics::CandidateModel>,
    wanted: Option<i64>,
) -> Option<nat> {
    if s.len() == 0 {
        None
    } else {
        match wanted {
            Some(id) if id_position(s, id) < s.len() => Some(id_position(s, id)),
            _ => Some(0),
        }
    }
}

/// The state that shows the lyrics of a candidate, one of `candidates`.
pub open spec fn shown(
    m: StateModel,
    track: crate::spotify::TrackModel,
    key: Seq<char>,
    candidates: Seq<crate::lyrics::CandidateModel>,
    wanted: Option<i64>,
) -> StateModel {
    let place = picked(candidates, wanted);
    StateModel {
        current_track_key: Some(key),
        current_track: Some(track),
        current_candidates: candidates,
        selected_candidate_id: match place {
            Some(i) => Some(candidates[i as int].id),
            None => None,
        },
        selected_lyrics: match place {
            Some(i) => Some(crate::lyrics::parsed(candidates[i as int])),
            None => None,
        },
        current_line_index: 0,
        loading_best: None,
        ..m
    }
}

/// The state that offers the candidates of a search.
pub open spec fn listed(
    m: StateModel,
    track: crate::spotify::TrackModel,
    key: Seq<char>,
    candidates: Seq<crate::lyrics::CandidateModel>,
) -> StateModel {
    StateModel {
        current_track_key: Some(key),
        current_track: Some(track),
        current_candidates: candidates,
        loading_search: None,
        ..m
    }
}

/// The state after candidates came in: those of a search are only offered,
/// others are shown at once.
pub open spec fn applied(
    m: StateModel,
    source: LyricsSource,
    track: crate::spotify::TrackModel,
    key: Seq<char>,
    candidates: Seq<crate::lyrics::CandidateModel>,
    wanted: Option<i64>,
    auto_apply: bool,
) -> StateModel {
    if auto_apply {
        shown(m, track, active_key(source, track), candidates, wanted)
    } else {
        listed(m, track, key, candidates)
    }
}

/// The state after the user chose the candidate at `index`; `key` is the key
/// of the current track.
pub open spec fn chosen(m: StateModel, index: int, key: Option<Seq<char>>) -> StateModel {
    StateModel {
        current_track_key: match key {
            Some(k) => Some(k),
            None => m.current_track_key,
        },
        selected_candidate_id: Some(m.current_candidates[index].id),
        selected_lyrics: Some(crate::lyrics::parsed(m.current_candidates[index])),
        current_line_index: 0,
        loading_best: None,
        loading_search: None,
        fetch_generation: next_generation(m.fetch_generation),
        ..m
    }
}

/// The key of the current track under a source.
pub open spec fn current_active_key(m: StateModel, source: LyricsSource) -> Option<Seq<char>> {
    match m.current_track {
        Some(track) => Some(active_key(source, track)),
        None => None,
    }
}

/// What is kept of a track's lyrics: under which key, for which track, which
/// candidate is selected, and all candidates.
#[derive(Debug)]
pub struct KeptLyrics {
    pub track_key: String,
    pub track: TrackInfo,
    pub selected_candidate_id: Option<i64>,
    pub candidates: Vec<LyricsCandidate>,
}

/// What `KeptLyrics` stand for.
#[verifier::ext_equal]
pub struct KeptModel {
    pub track_key: Seq<char>,
    pub track: crate::spotify::TrackModel,
    pub selected_candidate_id: Option<i64>,
    pub candidates: Seq<crate::lyrics::CandidateModel>,
}

impl View for KeptLyrics {
    type V = KeptModel;

    open spec fn view(&self) -> KeptModel {
        KeptModel {
            track_key: self.track_key@,
            track: self.track@,
            selected_candidate_id: self.selected_candidate_id,
            candidates: self.candidates.deep_view(),
        }
    }
}

impl DeepView for KeptLyrics {
    type V = KeptModel;

    open spec fn deep_view(&self) -> KeptModel {
        self@
    }
}

/// What is kept of the lyrics of the current track.
pub open spec fn kept_of(m: StateModel) -> Option<KeptModel> {
    match (m.current_track_key, m.current_track) {
        (Some(track_key), Some(track)) => Some(
            KeptModel {
                track_key,
                track,
                selected_candidate_id: m.selected_candidate_id,
                candidates: m.current_candidates,
            },
        ),
        _ => None,
    }
}

/// Whether a message of a fetch is about the current track and the current
/// round of fetches.
pub open spec fn is_fresh(m: StateModel, generation: u64, key: Seq<char>) -> bool {
    m.current_track_key == Some(key) && m.fetch_generation == generation
}

/// The position of a track, moved by the offset, never before its start.
pub open spec fn effective_position(position_ms: u64, offset_ms: i32) -> int {
    let moved = crate::storage::as_signed(position_ms) + offset_ms;
    if moved < 0 {
        0
    } else {
        moved
    }
}

/// Whether the moved position of a track is within 64 bits.
pub open spec fn position_fits(position_ms: u64, offset_ms: i32) -> bool {
    i64::MIN <= crate::storage::as_signed(position_ms) + offset_ms <= i64::MAX
}

/// The last line that is not later than `position`.
pub open spec fn line_at(lines: Seq<crate::lrc::LineModel>, position: int) -> Option<int>
    decreases lines.len(),
{
    if lines.len() == 0 {
        None
    } else if lines.last().time_ms <= position {
        Some(lines.len() - 1)
    } else {
        line_at(lines.drop_last(), position)
    }
}

/// Whether a playback status is one under which lines are followed.
pub open spec fn is_following_status(status: Seq<char>) -> bool {
    crate::text::ascii_folded(status) == crate::text::ascii_folded("Playing"@)
        || crate::text::ascii_folded(status) == crate::text::ascii_folded("Paused"@)
}

/// The line that is current for a track.
pub open spec fn followed_line(
    m: StateModel,
    track: crate::spotify::TrackModel,
    offset_ms: i32,
) -> int {
    match m.selected_lyrics {
        Some(lyrics) if is_following_status(track.playback_status) => match line_at(
            lyrics.lines,
            effective_position(track.position_ms, offset_ms),
        ) {
            Some(i) => i,
            None => m.current_line_index,
        },
        _ => m.current_line_index,
    }
}

proof fn lemma_id_position(s: Seq<crate::lyrics::CandidateModel>, id: i64)
    ensures
        id_position(s, id) <= s.len(),
        id_position(s, id) < s.len() ==> s[id_position(s, id) as int].id == id,
    decreases s.len(),
{
    if s.len() > 0 && s.first().id != id {
        lemma_id_position(s.drop_first(), id);
    }
}

proof fn lemma_id_position_finds(s: Seq<crate::lyrics::CandidateModel>, n: int)
    requires
        0 <= n < s.len(),
    ensures
        id_position(s, s[n].id) <= n,
    decreases s.len(),
{
    if s.first().id != s[n].id {
        assert(s.drop_first()[n - 1] == s[n]);
        lemma_id_position_finds(s.drop_first(), n - 1);
    }
}

proof fn lemma_id_position_is(s: Seq<crate::lyrics::CandidateModel>, id: i64, n: int)
    requires
        0 <= n <= s.len(),
        forall|j: int| 0 <= j < n ==> (#[trigger] s[j]).id != id,
        n < s.len() ==> s[n].id == id,
    ensures
        id_position(s, id) == n,
    decreases s.len(),
{
    if n > 0 {
        assert(s[0].id != id);
        assert forall|j: int| 0 <= j < n - 1 implies (#[trigger] s.drop_first()[j]).id != id by {
            assert(s[j + 1].id != id);
        }
        lemma_id_position_is(s.drop_first(), id, n - 1);
    }
}

/// The line at a position: it is not later, and every line behind it is.
pub proof fn law_line_at(lines: Seq<crate::lrc::LineModel>, position: int)
    ensures
        match line_at(lines, position) {
            Some(i) => {
                &&& 0 <= i < lines.len()
                &&& lines[i].time_ms <= position
                &&& forall|j: int| i < j < lines.len() ==> (#[trigger] lines[j]).time_ms > position
            },
            None => forall|j: int|
                0 <= j < lines.len() ==> (#[trigger] lines[j]).time_ms > position,
        },
    decreases lines.len(),
{
    if lines.len() > 0 && lines.last().time_ms > position {
        let rest = lines.drop_last();
        law_line_at(rest, position);
        match line_at(rest, position) {
            Some(i) => {
                assert forall|j: int| i < j < lines.len() implies (
                #[trigger] lines[j]).time_ms > position by {
                    if j < rest.len() {
                        assert(rest[j].time_ms > position);
                    }
                }
            },
            None => {
                assert forall|j: int| 0 <= j < lines.len() implies (
                #[trigger] lines[j]).time_ms > position by {
                    if j < rest.len() {
                        assert(rest[j].time_ms > position);
                    }
                }
            },
        }
    }
}

/// As a track plays on, the current line never moves back.
pub proof fn law_line_moves_forward(
    lines: Seq<crate::lrc::LineModel>,
    earlier: int,
    later: int,
)
    requires
        earlier <= later,
    ensures
        line_at(lines, earlier) matches Some(i) ==> (line_at(lines, later) matches Some(j) && i
            <= j),
{
    law_line_at(lines, earlier);
    law_line_at(lines, later);
}

/// A positive offset never moves the highlight back.
pub proof fn law_positive_offset_advances(
    lines: Seq<crate::lrc::LineModel>,
    position_ms: u64,
    offset_ms: i32,
)
    requires
        offset_ms >= 0,
    ensures
        effective_position(position_ms, 0) <= effective_position(position_ms, offset_ms),
        line_at(lines, effective_position(position_ms, 0)) matches Some(i) ==> (line_at(
            lines,
            effective_position(position_ms, offset_ms),
        ) matches Some(j) && i <= j),
{
    law_line_moves_forward(
        lines,
        effective_position(position_ms, 0),
        effective_position(position_ms, offset_ms),
    );
}

/// Every position that the player reports can be moved by any offset.
pub proof fn law_reported_positions_fit(f: crate::spotify::FieldsModel, offset_ms: i32)
    ensures
        crate::spotify::snapshot_in(f) matches Ok(Some(t)) ==> position_fits(
            t.position_ms,
            offset_ms,
        ),
{
    crate::spotify::law_snapshot_tracks(f);
}

/// Seeing the current track again changes nothing but the track's report.
pub proof fn law_same_track_keeps_lyrics(
    m: StateModel,
    source: LyricsSource,
    track: crate::spotify::TrackModel,
    later: crate::spotify::TrackModel,
)
    requires
        m.current_track_key == Some(active_key(source, track)),
        later.track_id == track.track_id,
        later.spotify_url == track.spotify_url,
        later.artist == track.artist,
        later.title == track.title,
        later.duration_ms / 1000 == track.duration_ms / 1000,
    ensures
        observed(m, later, active_key(source, later)) == (StateModel {
            current_track: Some(later),
            ..m
        }),
{
    crate::spotify::law_key_stays_while_playing(track, later);
}

/// The lyrics of the two sources are kept apart.
pub proof fn law_sources_have_own_keys(
    a: crate::spotify::TrackModel,
    b: crate::spotify::TrackModel,
)
    ensures
        active_key(LyricsSource::Lrclib, a) != active_key(LyricsSource::SpotifyOfficial, b),
{
    reveal_strlit("lrclib");
    reveal_strlit("spotify_official");
    assert(active_key(LyricsSource::Lrclib, a)[0] == 'l');
    assert(active_key(LyricsSource::SpotifyOfficial, b)[0] == 's');
}

/// Once another track is looked up, or a candidate is chosen, the messages of
/// fetches that were begun before are stale.
pub proof fn law_old_fetches_are_stale(
    m: StateModel,
    track: crate::spotify::TrackModel,
    key: Seq<char>,
    index: int,
    generation: u64,
    message_key: Seq<char>,
)
    requires
        generation <= m.fetch_generation,
        m.fetch_generation < u64::MAX,
    ensures
        !is_fresh(reset_to(m, track, key), generation, message_key),
        !is_fresh(chosen(m, index, Some(key)), generation, message_key),
{
}

/// The rounds of fetches never go back.
pub proof fn law_rounds_never_go_back(
    m: StateModel,
    source: LyricsSource,
    track: crate::spotify::TrackModel,
    key: Seq<char>,
    candidates: Seq<crate::lyrics::CandidateModel>,
    wanted: Option<i64>,
    auto_apply: bool,
    index: int,
)
    ensures
        m.fetch_generation <= cleared(m).fetch_generation,
        m.fetch_generation <= reset_to(m, track, key).fetch_generation,
        m.fetch_generation <= observed(m, track, key).fetch_generation,
        m.fetch_generation <= applied(
            m,
            source,
            track,
            key,
            candidates,
            wanted,
            auto_apply,
        ).fetch_generation,
        m.fetch_generation <= chosen(m, index, current_active_key(m, source)).fetch_generation,
{
}

/// Lyrics that were shown are kept under the key of their track and source,
/// with the candidate that was picked and all candidates.
pub proof fn law_shown_lyrics_are_kept(
    m: StateModel,
    source: LyricsSource,
    track: crate::spotify::TrackModel,
    key: Seq<char>,
    candidates: Seq<crate::lyrics::CandidateModel>,
    wanted: Option<i64>,
)
    ensures
        kept_of(applied(m, source, track, key, candidates, wanted, true)) == Some(
            KeptModel {
                track_key: active_key(source, track),
                track,
                selected_candidate_id: match picked(candidates, wanted) {
                    Some(i) => Some(candidates[i as int].id),
                    None => None,
                },
                candidates,
            },
        ),
{
}

/// A candidate that was chosen is kept under the key of the current track and
/// source, with all candidates; without a current track nothing is kept.
pub proof fn law_chosen_lyrics_are_kept(m: StateModel, source: LyricsSource, index: int)
    ensures
        kept_of(chosen(m, index, current_active_key(m, source))) == match m.current_track {
            Some(track) => Some(
                KeptModel {
                    track_key: active_key(source, track),
                    track,
                    selected_candidate_id: Some(m.current_candidates[index].id),
                    candidates: m.current_candidates,
                },
            ),
            None => None,
        },
{
}

/// Lyrics that were shown, kept with the identifier of their candidate, and
/// taken from the store again are the same lyrics.
pub proof fn law_kept_lyrics_come_back(
    m: StateModel,
    later: StateModel,
    track: crate::spotify::TrackModel,
    key: Seq<char>,
    candidates: Seq<crate::lyrics::CandidateModel>,
    wanted: Option<i64>,
)
    ensures
        ({
            let first = shown(m, track, key, candidates, wanted);
            let again = shown(later, track, key, candidates, first.selected_candidate_id);
            &&& again.selected_candidate_id == first.selected_candidate_id
            &&& again.selected_lyrics == first.selected_lyrics
        }),
{
    match picked(candidates, wanted) {
        Some(i) => {
            let id = candidates[i as int].id;
            match wanted {
                Some(w) => {
                    lemma_id_position(candidates, w);
                },
                None => {},
            }
            lemma_id_position_finds(candidates, i as int);
            match wanted {
                Some(w) if id_position(candidates, w) < candidates.len() => {
                    assert(id == w);
                },
                _ => {
                    assert(id_position(candidates, id) == 0);
                },
            }
        },
        None => {},
    }
}

/// A candidate that the user chose is the one that the store gives back, among
/// candidates with distinct identifiers.
pub proof fn law_kept_choice_comes_back(
    m: StateModel,
    later: StateModel,
    track: crate::spotify::TrackModel,
    key: Seq<char>,
    index: int,
)
    requires
        0 <= index < m.current_candidates.len(),
        crate::lyrics::distinct_ids(m.current_candidates),
    ensures
        ({
            let choice = chosen(m, index, Some(key));
            let again = shown(
                later,
                track,
                key,
                choice.current_candidates,
                choice.selected_candidate_id,
            );
            &&& again.selected_candidate_id == choice.selected_candidate_id
            &&& again.selected_lyrics == choice.selected_lyrics
        }),
{
    let s = m.current_candidates;
    let id = s[index].id;
    assert forall|j: int| 0 <= j < index implies (#[trigger] s[j]).id != id by {
        assert(s[j].id != s[index].id);
    }
    lemma_id_position_is(s, id, index);
}

/// Nothing is current when nothing plays: every message is stale.
pub proof fn law_nothing_is_fresh_after_clearing(
    m: StateModel,
    generation: u64,
    message_key: Seq<char>,
)
    ensures
        !is_fresh(cleared(m), generation, message_key),
{
}

/// Every step keeps a state well formed.
pub proof fn law_steps_keep_state_well_formed(
    m: StateModel,
    source: LyricsSource,
    track: crate::spotify::TrackModel,
    key: Seq<char>,
    candidates: Seq<crate::lyrics::CandidateModel>,
    wanted: Option<i64>,
    auto_apply: bool,
    index: int,
    offset_ms: i32,
)
    requires
        m.wf(),
    ensures
        initial_state().wf(),
        cleared(m).wf(),
        reset_to(m, track, key).wf(),
        observed(m, track, key).wf(),
        applied(m, source, track, key, candidates, wanted, auto_apply).wf(),
        chosen(m, index, current_active_key(m, source)).wf(),
        (StateModel { current_line_index: followed_line(m, track, offset_ms), ..m }).wf(),
        (StateModel { loading_best: Some(key), ..m }).wf(),
        (StateModel { loading_search: Some(key), ..m }).wf(),
        (StateModel { user_scrolled: true, ..m }).wf(),
        (StateModel { user_scrolled: false, ..m }).wf(),
{
    match picked(candidates, wanted) {
        Some(i) => {
            crate::lrc::law_sorted_in_order(
                crate::lrc::lrc_lines(crate::text::lines(candidates[i as int].synced_lyrics)),
            );
        },
        None => {},
    }
    crate::lrc::law_sorted_in_order(
        crate::lrc::lrc_lines(crate::text::lines(m.current_candidates[index].synced_lyrics)),
    );
    match m.selected_lyrics {
        Some(l) => {
            law_line_at(l.lines, effective_position(track.position_ms, offset_ms));
        },
        None => {},
    }
}

/// The place of the candidate to show.
pub fn pick_selected_candidate(
    candidates: &Vec<LyricsCandidate>,
    selected_candidate_id: Option<i64>,
) -> (r: Option<usize>)
    ensures
        match r {
            Some(i) => i < candidates@.len() && picked(
                candidates.deep_view(),
                selected_candidate_id,
            ) == Some(i as nat),
            None => picked(candidates.deep_view(), selected_candidate_id) is None,
        },
{
    let ghost all = candidates.deep_view();
    assert(all.len() == candidates@.len());
    if candidates.len() == 0 {
        return None;
    }
    if let Some(id) = selected_candidate_id {
        let mut i: usize = 0;
        while i < candidates.len() && candidates[i].id != id
            invariant
                i <= candidates.len(),
                all == candidates.deep_view(),
                forall|j: int| 0 <= j < i ==> (#[trigger] all[j]).id != id,
            decreases candidates.len() - i,
        {
            assert(all[i as int] == candidates@[i as int]@);
            i = i + 1;
        }
        proof {
            if i < candidates.len() {
                assert(all[i as int] == candidates@[i as int]@);
            }
            lemma_id_position_is(all, id, i as int);
        }
        if i < candidates.len() {
            return Some(i);
        }
    }
    Some(0)
}

/// Whether the candidate to show has a meaning.
pub fn selection_fits(candidates: &Vec<LyricsCandidate>, wanted: Option<i64>) -> (r: bool)
    ensures
        r == (picked(candidates.deep_view(), wanted) matches Some(i)
            ==> crate::lyrics::candidate_fits(candidates.deep_view()[i as int])),
{
    match pick_selected_candidate(candidates, wanted) {
        Some(i) => {
            assert(candidates.deep_view()[i as int] == candidates@[i as int]@);
            lyrics_fit(&candidates[i])
        },
        None => true,
    }
}

/// Whether the moved position of a track is within 64 bits.
pub fn position_can_move(position_ms: u64, timing_offset_ms: i32) -> (r: bool)
    ensures
        r == position_fits(position_ms, timing_offset_ms),
{
    let moved: i128 = to_signed(position_ms) as i128 + timing_offset_ms as i128;
    i64::MIN as i128 <= moved && moved <= i64::MAX as i128
}

/// The key under which lyrics from a source are kept, for the key of a track.
pub fn key_under_source(source: LyricsSource, track_key: &str) -> (r: String)
    ensures
        r@ == source_key(source, track_key@),
{
    let mut key: String = source.as_str().to_owned();
    key.append(":");
    key.append(track_key);
    key
}

/// The key under which the lyrics of a track from a source are kept.
pub fn active_lyrics_key(source: LyricsSource, track: &TrackInfo) -> (r: String)
    ensures
        r@ == active_key(source, track@),
{
    key_under_source(source, track.cache_key().as_str())
}

/// The position of a track, moved by the offset, never before its start.
pub fn effective_position_ms(position_ms: u64, timing_offset_ms: i32) -> (r: u64)
    requires
        position_fits(position_ms, timing_offset_ms),
    ensures
        r == effective_position(position_ms, timing_offset_ms),
{
    let effective: i64 = to_signed(position_ms) + timing_offset_ms as i64;
    if effective < 0 {
        0
    } else {
        effective as u64
    }
}

/// What a snapshot of the player means for the lyrics.
#[derive(Debug, Clone, Copy, PartialEq, Eq, Structural)]
pub enum SnapshotStep {
    /// Nothing plays.
    Stopped,
    /// Another track plays: its lyrics are to be looked up.
    Changed,
    /// The current track plays on.
    Same,
}

/// The state after a snapshot of the player, and what it means.
pub open spec fn after_snapshot(
    m: StateModel,
    source: LyricsSource,
    track: Option<crate::spotify::TrackModel>,
) -> (StateModel, SnapshotStep) {
    match track {
        None => (cleared(m), SnapshotStep::Stopped),
        Some(t) => {
            let key = active_key(source, t);
            let step = if m.current_track_key == Some(key) {
                SnapshotStep::Same
            } else {
                SnapshotStep::Changed
            };
            (observed(m, t, key), step)
        },
    }
}

/// The state when the current track is looked up afresh.
pub open spec fn reloaded(m: StateModel, source: LyricsSource) -> StateModel {
    match m.current_track {
        Some(track) => reset_to(m, track, active_key(source, track)),
        None => m,
    }
}

/// The state after the user chose the candidate at `index`, and its identifier;
/// nothing where there is none.
pub open spec fn after_choice(m: StateModel, source: LyricsSource, index: int) -> (
    StateModel,
    Option<i64>,
) {
    if index < m.current_candidates.len() {
        (
            chosen(m, index, current_active_key(m, source)),
            Some(m.current_candidates[index].id),
        )
    } else {
        (m, None)
    }
}

impl RuntimeState {
    /// The state at the start.
    pub fn new() -> (r: Self)
        ensures
            r@ == initial_state(),
            r@.wf(),
    {
        let r = RuntimeState {
            current_track_key: None,
            current_track: None,
            current_candidates: Vec::new(),
            selected_candidate_id: None,
            selected_lyrics: None,
            current_line_index: 0,
            loading_best: None,
            loading_search: None,
            user_scrolled: false,
            fetch_generation: 0,
        };
        assert(r@ =~= initial_state());
        r
    }

    /// Forgets the track when nothing plays any more.
    pub fn clear_track(&mut self)
        ensures
            final(self)@ == cleared(old(self)@),
    {
        self.current_track_key = None;
        self.current_track = None;
        self.current_candidates = Vec::new();
        self.selected_candidate_id = None;
        self.selected_lyrics = None;
        self.current_line_index = 0;
        self.loading_best = None;
        self.loading_search = None;
        assert(self@ =~= cleared(old(self)@));
    }

    /// Begins the lookup of a track.
    pub fn reset_for_new_track(&mut self, track: TrackInfo, key: String)
        ensures
            final(self)@ == reset_to(old(self)@, track@, key@),
    {
        let ghost t = track@;
        let ghost k = key@;
        self.current_track_key = Some(key);
        self.current_track = Some(track);
        self.current_candidates = Vec::new();
        self.selected_candidate_id = None;
        self.selected_lyrics = None;
        self.current_line_index = 0;
        self.loading_best = None;
        self.loading_search = None;
        if self.fetch_generation < u64::MAX {
            self.fetch_generation = self.fetch_generation + 1;
        }
        assert(self@ =~= reset_to(old(self)@, t, k));
    }

    /// Takes notice of a playing track, whose key is `key`.
    pub fn observe(&mut self, track: TrackInfo, key: String) -> (r: SnapshotStep)
        ensures
            final(self)@ == observed(old(self)@, track@, key@),
            r == if old(self)@.current_track_key == Some(key@) {
                SnapshotStep::Same
            } else {
                SnapshotStep::Changed
            },
    {
        if is_text(&self.current_track_key, key.as_str()) {
            let ghost t = track@;
            self.current_track = Some(track);
            assert(self@ =~= (StateModel { current_track: Some(t), ..old(self)@ }));
            SnapshotStep::Same
        } else {
            self.reset_for_new_track(track, key);
            SnapshotStep::Changed
        }
    }

    /// Takes notice of a snapshot of the player.
    pub fn handle_snapshot(&mut self, source: LyricsSource, snapshot: SpotifySnapshot) -> (r:
        SnapshotStep)
        ensures
            (final(self)@, r) == after_snapshot(old(self)@, source, snapshot.track.deep_view()),
            match snapshot.track.deep_view() {
                None => r == SnapshotStep::Stopped && final(self)@ == cleared(old(self)@),
                Some(track) => {
                    &&& final(self)@ == observed(old(self)@, track, active_key(source, track))
                    &&& r == if old(self)@.current_track_key == Some(active_key(source, track)) {
                        SnapshotStep::Same
                    } else {
                        SnapshotStep::Changed
                    }
                },
            },
    {
        match snapshot.track {
            None => {
                self.clear_track();
                SnapshotStep::Stopped
            },
            Some(track) => {
                let key: String = active_lyrics_key(source, &track);
                self.observe(track, key)
            },
        }
    }

    /// Looks the current track up afresh; says whether there is one.
    pub fn reload_current_track(&mut self, source: LyricsSource) -> (r: bool)
        ensures
            final(self)@ == reloaded(old(self)@, source),
            r == (old(self)@.current_track is Some),
            final(self)@ == match old(self)@.current_track {
                Some(track) => reset_to(old(self)@, track, active_key(source, track)),
                None => old(self)@,
            },
    {
        let current: Option<TrackInfo> = match &self.current_track {
            Some(track) => Some(track.clone()),
            None => None,
        };
        match current {
            Some(track) => {
                let key: String = active_lyrics_key(source, &track);
                self.reset_for_new_track(track, key);
                true
            },
            None => false,
        }
    }

    /// Shows the lyrics of the wanted candidate; says which one that is.
    pub fn show_candidates(
        &mut self,
        track: TrackInfo,
        key: String,
        candidates: Vec<LyricsCandidate>,
        wanted: Option<i64>,
    ) -> (r: Option<i64>)
        requires
            picked(candidates.deep_view(), wanted) matches Some(i)
                ==> crate::lyrics::candidate_fits(candidates.deep_view()[i as int]),
        ensures
            final(self)@ == shown(old(self)@, track@, key@, candidates.deep_view(), wanted),
            r == final(self)@.selected_candidate_id,
    {
        let ghost t = track@;
        let ghost k = key@;
        let ghost all = candidates.deep_view();
        self.current_track_key = Some(key);
        self.current_track = Some(track);
        self.loading_best = None;
        match pick_selected_candidate(&candidates, wanted) {
            Some(i) => {
                assert(all[i as int] == candidates@[i as int]@);
                self.selected_candidate_id = Some(candidates[i].id);
                self.selected_lyrics = Some(parse_candidate(&candidates[i]));
            },
            None => {
                self.selected_candidate_id = None;
                self.selected_lyrics = None;
            },
        }
        self.current_line_index = 0;
        self.current_candidates = candidates;
        assert(self@ =~= shown(old(self)@, t, k, all, wanted));
        self.selected_candidate_id
    }

    /// Offers the candidates of a search.
    pub fn list_candidates(
        &mut self,
        track: TrackInfo,
        key: String,
        candidates: Vec<LyricsCandidate>,
    )
        ensures
            final(self)@ == listed(old(self)@, track@, key@, candidates.deep_view()),
    {
        let ghost t = track@;
        let ghost k = key@;
        let ghost all = candidates.deep_view();
        self.current_track_key = Some(key);
        self.current_track = Some(track);
        self.loading_search = None;
        self.current_candidates = candidates;
        assert(self@ =~= listed(old(self)@, t, k, all));
    }

    /// Takes candidates in: those of a search are only offered, others are
    /// shown at once.
    pub fn apply_candidates(
        &mut self,
        source: LyricsSource,
        track: TrackInfo,
        track_key: String,
        candidates: Vec<LyricsCandidate>,
        wanted: Option<i64>,
        auto_apply: bool,
    )
        requires
            auto_apply ==> (picked(candidates.deep_view(), wanted) matches Some(i)
                ==> crate::lyrics::candidate_fits(candidates.deep_view()[i as int])),
        ensures
            final(self)@ == applied(
                old(self)@,
                source,
                track@,
                track_key@,
                candidates.deep_view(),
                wanted,
                auto_apply,
            ),
    {
        if auto_apply {
            let key: String = active_lyrics_key(source, &track);
            let _ = self.show_candidates(track, key, candidates, wanted);
        } else {
            self.list_candidates(track, track_key, candidates);
        }
    }

    /// Shows the candidate at `index`; `key` is the key of the current track.
    /// Says which candidate that is, nothing where there is none.
    pub fn choose_candidate(&mut self, index: usize, key: Option<String>) -> (r: Option<i64>)
        requires
            index < old(self)@.current_candidates.len() ==> crate::lyrics::candidate_fits(
                old(self)@.current_candidates[index as int],
            ),
        ensures
            index < old(self)@.current_candidates.len() ==> {
                &&& final(self)@ == chosen(old(self)@, index as int, key.deep_view())
                &&& r == Some(old(self)@.current_candidates[index as int].id)
            },
            index >= old(self)@.current_candidates.len() ==> final(self)@ == old(self)@ && r
                is None,
    {
        assert(self@.current_candidates.len() == self.current_candidates@.len());
        if index >= self.current_candidates.len() {
            return None;
        }
        let ghost k = key.deep_view();
        assert(self@.current_candidates[index as int] == self.current_candidates@[index as int]@);
        let id: i64 = self.current_candidates[index].id;
        let lyrics: ParsedLyrics = parse_candidate(&self.current_candidates[index]);
        self.selected_candidate_id = Some(id);
        self.selected_lyrics = Some(lyrics);
        self.current_line_index = 0;
        self.loading_best = None;
        self.loading_search = None;
        if self.fetch_generation < u64::MAX {
            self.fetch_generation = self.fetch_generation + 1;
        }
        if key.is_some() {
            self.current_track_key = key;
        }
        assert(self@ =~= chosen(old(self)@, index as int, k));
        Some(id)
    }

    /// Shows the candidate at `index` that the user chose.
    pub fn select_candidate(&mut self, source: LyricsSource, index: usize) -> (r: Option<i64>)
        requires
            index < old(self)@.current_candidates.len() ==> crate::lyrics::candidate_fits(
                old(self)@.current_candidates[index as int],
            ),
        ensures
            (final(self)@, r) == after_choice(old(self)@, source, index as int),
            index < old(self)@.current_candidates.len() ==> {
                &&& final(self)@ == chosen(
                    old(self)@,
                    index as int,
                    current_active_key(old(self)@, source),
                )
                &&& r == Some(old(self)@.current_candidates[index as int].id)
            },
            index >= old(self)@.current_candidates.len() ==> final(self)@ == old(self)@ && r
                is None,
    {
        let key: Option<String> = match &self.current_track {
            Some(track) => Some(active_lyrics_key(source, track)),
            None => None,
        };
        self.choose_candidate(index, key)
    }

    /// What is kept of the lyrics of the current track, nothing where no track
    /// is current.
    pub fn lyrics_to_keep(&self) -> (r: Option<KeptLyrics>)
        ensures
            r.deep_view() == kept_of(self@),
    {
        match (&self.current_track_key, &self.current_track) {
            (Some(key), Some(track)) => {
                let candidates: Vec<LyricsCandidate> = self.current_candidates.clone();
                assert(candidates.deep_view() =~= self.current_candidates.deep_view());
                Some(
                    KeptLyrics {
                        track_key: key.clone(),
                        track: track.clone(),
                        selected_candidate_id: self.selected_candidate_id,
                        candidates,
                    },
                )
            },
            _ => None,
        }
    }

    /// Moves the current line to where a track is; says whether it moved.
    pub fn update_current_line(&mut self, track: &TrackInfo, timing_offset_ms: i32) -> (r: bool)
        requires
            position_fits(track@.position_ms, timing_offset_ms),
        ensures
            final(self)@ == (StateModel {
                current_line_index: followed_line(old(self)@, track@, timing_offset_ms),
                ..old(self)@
            }),
            r == (final(self)@.current_line_index != old(self)@.current_line_index),
    {
        let position: u64 = effective_position_ms(track.position_ms, timing_offset_ms);
        let found: Option<usize> = match &self.selected_lyrics {
            Some(lyrics) => {
                if !eq_ignore_ascii_case(track.playback_status.as_str(), "Playing")
                    && !eq_ignore_ascii_case(track.playback_status.as_str(), "Paused") {
                    None
                } else {
                    find_line(lyrics, position)
                }
            },
            None => None,
        };
        if let Some(index) = found {
            if index != self.current_line_index {
                self.current_line_index = index;
                return true;
            }
        }
        false
    }

    /// Stops following the current line, as the user scrolls.
    pub fn mark_manual_scroll(&mut self)
        ensures
            final(self)@ == (StateModel { user_scrolled: true, ..old(self)@ }),
    {
        self.user_scrolled = true;
    }

    /// Follows the current line again.
    pub fn resume_following(&mut self)
        ensures
            final(self)@ == (StateModel { user_scrolled: false, ..old(self)@ }),
    {
        self.user_scrolled = false;
    }
}

/// The last line that is not later than `position`.
fn find_line(lyrics: &ParsedLyrics, position: u64) -> (r: Option<usize>)
    ensures
        match r {
            Some(i) => line_at(lyrics@.lines, position as int) == Some(i as int),
            None => line_at(lyrics@.lines, position as int) is None,
        },
{
    let ghost all = lyrics@.lines;
    let mut n: usize = lyrics.lines.len();
    assert(all.take(n as int) =~= all);
    while n > 0
        invariant
            n <= lyrics.lines.len(),
            all == lyrics@.lines,
            line_at(all.take(n as int), position as int) == line_at(all, position as int),
        decreases n,
    {
        proof {
            assert(all.take(n as int).last() == lyrics.lines@[n - 1]@);
            assert(all.take(n as int).drop_last() =~= all.take(n - 1));
        }
        if lyrics.lines[n - 1].time_ms <= position {
            return Some(n - 1);
        }
        n = n - 1;
    }
    None
}

} // verus!
