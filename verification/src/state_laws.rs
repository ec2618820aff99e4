//! What holds of the state: how lines are followed, what each step changes and
//! what it leaves, and what the change of lyrics opens.
use vstd::prelude::*;

use crate::fetching::{ChangeStepModel, FetchKind, LookupModel, LookupStepModel, MessageModel,
    ReceivedModel};
use crate::lrc::LineModel;
use crate::lyrics::{CandidateModel, LyricsModel};
use crate::spotify::TrackModel;
use crate::state::{SnapshotStep, StateModel};
use crate::storage::LyricsSource;

verus! {

/// The offset is added to the reported position, and nothing else is done to it;
/// only what would lie before the start becomes the start.
pub proof fn law_offset_is_added_to_the_position(position_ms: u64, offset_ms: i32)
    requires
        position_ms <= i64::MAX,
    ensures
        crate::state::effective_position(position_ms, 0) == position_ms,
        position_ms + offset_ms >= 0 ==> crate::state::effective_position(position_ms, offset_ms)
            == position_ms + offset_ms,
        position_ms + offset_ms < 0 ==> crate::state::effective_position(position_ms, offset_ms)
            == 0,
        position_ms + offset_ms <= i64::MAX ==> crate::state::position_fits(
            position_ms,
            offset_ms,
        ),
{
    crate::keeping_laws::law_number_stays_while_it_fits(position_ms);
}

/// While a track plays or is paused, in whatever case its status is written, the
/// followed line is the last one whose time
/// has come, by the reported position and the offset; where none has come yet,
/// the line stays.
pub proof fn law_followed_line_is_the_last_that_came(
    m: StateModel,
    track: TrackModel,
    lyrics: LyricsModel,
    offset_ms: i32,
)
    requires
        m.selected_lyrics == Some(lyrics),
        crate::text::ascii_folded(track.playback_status) == crate::text::ascii_folded("Playing"@)
            || crate::text::ascii_folded(track.playback_status) == crate::text::ascii_folded(
            "Paused"@,
        ),
        track.position_ms <= i64::MAX,
    ensures
        ({
            let i = crate::state::followed_line(m, track, offset_ms);
            let came = |l: LineModel|
                l.time_ms == 0 || l.time_ms <= track.position_ms + offset_ms;
            ||| {
                &&& 0 <= i < lyrics.lines.len()
                &&& came(lyrics.lines[i])
                &&& forall|j: int| i < j < lyrics.lines.len() ==> !came(#[trigger] lyrics.lines[j])
            }
            ||| {
                &&& i == m.current_line_index
                &&& forall|j: int| 0 <= j < lyrics.lines.len() ==> !came(#[trigger] lyrics.lines[j])
            }
        }),
{
    let at = crate::state::effective_position(track.position_ms, offset_ms);
    law_offset_is_added_to_the_position(track.position_ms, offset_ms);
    crate::state::law_line_at(lyrics.lines, at);
    let i = crate::state::followed_line(m, track, offset_ms);
    let came = |l: LineModel| l.time_ms == 0 || l.time_ms <= track.position_ms + offset_ms;
    assert forall|l: LineModel| #[trigger] came(l) <==> l.time_ms <= at by {}
    match crate::state::line_at(lyrics.lines, at) {
        Some(k) => {
            assert(k == i);
            assert(came(lyrics.lines[i]));
        },
        None => {},
    }
}

/// As the reported position grows, the followed line never moves back, once it is
/// one whose time has come, or the first.
pub proof fn law_followed_line_never_moves_back(
    m: StateModel,
    track: TrackModel,
    later: TrackModel,
    lyrics: LyricsModel,
    offset_ms: i32,
)
    requires
        m.selected_lyrics == Some(lyrics),
        track.playback_status == "Playing"@ || track.playback_status == "Paused"@,
        later.playback_status == "Playing"@ || later.playback_status == "Paused"@,
        track.position_ms <= later.position_ms <= i64::MAX,
        m.wf(),
        m.current_line_index == 0 || lyrics.lines[0].time_ms <= track.position_ms + offset_ms,
    ensures
        ({
            let before = crate::state::followed_line(m, track, offset_ms);
            let then_on = StateModel { current_line_index: before, ..m };
            before <= crate::state::followed_line(then_on, later, offset_ms)
        }),
{
    law_offset_is_added_to_the_position(track.position_ms, offset_ms);
    law_offset_is_added_to_the_position(later.position_ms, offset_ms);
    let at = crate::state::effective_position(track.position_ms, offset_ms);
    let on = crate::state::effective_position(later.position_ms, offset_ms);
    crate::state::law_line_at(lyrics.lines, at);
    crate::state::law_line_at(lyrics.lines, on);
    crate::state::law_line_moves_forward(lyrics.lines, at, on);
    if crate::state::line_at(lyrics.lines, at) is None && m.current_line_index != 0 {
        assert(lyrics.lines[0].time_ms > at);
    }
}

/// A paused track is followed like a playing one; a stopped one, and a state
/// without lyrics, leave the line where it is.
pub proof fn law_only_playing_or_paused_tracks_are_followed(
    m: StateModel,
    track: TrackModel,
    offset_ms: i32,
)
    ensures
        crate::state::followed_line(
            m,
            TrackModel { playback_status: "Playing"@, ..track },
            offset_ms,
        ) == crate::state::followed_line(
            m,
            TrackModel { playback_status: "Paused"@, ..track },
            offset_ms,
        ),
        crate::text::ascii_folded(track.playback_status) != crate::text::ascii_folded("Playing"@)
            && crate::text::ascii_folded(track.playback_status) != crate::text::ascii_folded(
            "Paused"@,
        ) ==> crate::state::followed_line(m, track, offset_ms) == m.current_line_index,
        track.playback_status == "Stopped"@ ==> crate::state::followed_line(m, track, offset_ms)
            == m.current_line_index,
        m.selected_lyrics is None ==> crate::state::followed_line(m, track, offset_ms)
            == m.current_line_index,
{
    reveal_strlit("Playing");
    reveal_strlit("Paused");
    reveal_strlit("Stopped");
    let s = crate::text::ascii_folded(track.playback_status);
    assert(s.len() == track.playback_status.len());
    assert(crate::text::ascii_folded("Playing"@).len() == 7);
    assert(crate::text::ascii_folded("Paused"@).len() == 6);
    assert(crate::text::ascii_folded("Playing"@)[0] == 'p');
    if track.playback_status == "Stopped"@ {
        assert(s[0] == 's');
    }
}

/// The line depends on nothing of a track but its status and its position.
pub proof fn law_line_follows_position_and_status_only(
    m: StateModel,
    track: TrackModel,
    other: TrackModel,
    offset_ms: i32,
)
    requires
        other.playback_status == track.playback_status,
        other.position_ms == track.position_ms,
    ensures
        crate::state::followed_line(m, other, offset_ms) == crate::state::followed_line(
            m,
            track,
            offset_ms,
        ),
{
}

/// The candidate that is shown is the first one with the wanted identifier, the
/// first of all where none has it or none is wanted, and none only of none.
pub proof fn law_wanted_candidate_is_picked(s: Seq<CandidateModel>, wanted: Option<i64>)
    ensures
        crate::state::picked(s, wanted) is None <==> s.len() == 0,
        crate::state::picked(s, wanted) matches Some(n) ==> {
            &&& n < s.len()
            &&& wanted is None ==> n == 0
            &&& wanted matches Some(id) ==> {
                ||| s[n as int].id == id && forall|j: int|
                    0 <= j < n ==> (#[trigger] s[j]).id != id
                ||| n == 0 && forall|j: int| 0 <= j < s.len() ==> (#[trigger] s[j]).id != id
            }
        },
{
    match wanted {
        Some(id) => {
            lemma_first_place(s, id);
        },
        None => {},
    }
}

proof fn lemma_first_place(s: Seq<CandidateModel>, id: i64)
    ensures
        crate::state::id_position(s, id) <= s.len(),
        crate::state::id_position(s, id) < s.len() ==> s[crate::state::id_position(
            s,
            id,
        ) as int].id == id,
        forall|j: int|
            0 <= j < crate::state::id_position(s, id) ==> (#[trigger] s[j]).id != id,
    decreases s.len(),
{
    if s.len() > 0 && s.first().id != id {
        let rest = s.drop_first();
        lemma_first_place(rest, id);
        assert forall|j: int| 0 <= j < crate::state::id_position(s, id) implies (
        #[trigger] s[j]).id != id by {
            if j > 0 {
                assert(rest[j - 1].id != id);
            }
        }
    }
}

/// When nothing plays, nothing is left but the round of fetches and whether the
/// user scrolled.
pub proof fn law_clearing_forgets_the_track(m: StateModel)
    ensures
        ({
            let c = crate::state::cleared(m);
            &&& c.current_track_key is None
            &&& c.current_track is None
            &&& c.current_candidates.len() == 0
            &&& c.selected_candidate_id is None
            &&& c.selected_lyrics is None
            &&& c.current_line_index == 0
            &&& c.loading_best is None
            &&& c.loading_search is None
            &&& c.user_scrolled == m.user_scrolled
            &&& c.fetch_generation == m.fetch_generation
        }),
{
}

/// Looking a track up begins a new round and forgets the lyrics of the one
/// before.
pub proof fn law_lookup_begins_afresh(m: StateModel, track: TrackModel, key: Seq<char>)
    requires
        m.fetch_generation < u64::MAX,
    ensures
        ({
            let r = crate::state::reset_to(m, track, key);
            &&& r.current_track_key == Some(key)
            &&& r.current_track == Some(track)
            &&& r.current_candidates.len() == 0
            &&& r.selected_candidate_id is None
            &&& r.selected_lyrics is None
            &&& r.current_line_index == 0
            &&& r.loading_best is None
            &&& r.loading_search is None
            &&& r.user_scrolled == m.user_scrolled
            &&& r.fetch_generation == m.fetch_generation + 1
        }),
{
}

/// Seeing a track a second time changes nothing, and in between nothing of the
/// state but the report of the track.
pub proof fn law_second_sight_changes_nothing(
    m: StateModel,
    track: TrackModel,
    later: TrackModel,
    key: Seq<char>,
)
    ensures
        ({
            let once = crate::state::observed(m, track, key);
            &&& once.current_track_key == Some(key)
            &&& once.current_track == Some(track)
            &&& crate::state::observed(once, track, key) == once
            &&& crate::state::observed(once, later, key) == (StateModel {
                current_track: Some(later),
                ..once
            })
            &&& m.current_track_key != Some(key) ==> once == crate::state::reset_to(m, track, key)
        }),
{
}

/// Showing lyrics sets the track, its candidates and the picked one, starts at
/// the first line, and ends the wait for them; it leaves a search, the user's
/// scrolling and the round as they are.
pub proof fn law_showing_sets_the_lyrics(
    m: StateModel,
    track: TrackModel,
    key: Seq<char>,
    candidates: Seq<CandidateModel>,
    wanted: Option<i64>,
)
    ensures
        ({
            let s = crate::state::shown(m, track, key, candidates, wanted);
            &&& s.current_track_key == Some(key)
            &&& s.current_track == Some(track)
            &&& s.current_candidates == candidates
            &&& s.current_line_index == 0
            &&& s.loading_best is None
            &&& s.loading_search == m.loading_search
            &&& s.user_scrolled == m.user_scrolled
            &&& s.fetch_generation == m.fetch_generation
            &&& candidates.len() == 0 ==> s.selected_candidate_id is None && s.selected_lyrics
                is None
            &&& candidates.len() > 0 ==> exists|i: int|
                0 <= i < candidates.len() && s.selected_candidate_id == Some(candidates[i].id)
                    && s.selected_lyrics == Some(crate::lyrics::parsed(#[trigger] candidates[i]))
                    && (wanted is None ==> i == 0)
        }),
{
    law_wanted_candidate_is_picked(candidates, wanted);
    match crate::state::picked(candidates, wanted) {
        Some(n) => {
            let c = candidates[n as int];
            assert(crate::state::shown(m, track, key, candidates, wanted).selected_lyrics == Some(
                crate::lyrics::parsed(c),
            ));
        },
        None => {},
    }
}

/// A search only replaces the candidates that are offered, and ends the wait for
/// it.
pub proof fn law_listing_only_replaces_candidates(
    m: StateModel,
    track: TrackModel,
    key: Seq<char>,
    candidates: Seq<CandidateModel>,
)
    requires
        m.current_track_key == Some(key),
        m.current_track == Some(track),
    ensures
        ({
            let l = crate::state::listed(m, track, key, candidates);
            &&& l.current_candidates == candidates
            &&& l.loading_search is None
            &&& m == (StateModel {
                current_candidates: m.current_candidates,
                loading_search: m.loading_search,
                ..l
            })
        }),
{
}

/// Choosing a candidate shows that one from its first line and begins a new round
/// with no fetch under way; it leaves the track, the candidates and the user's
/// scrolling as they are.
pub proof fn law_choice_is_shown(m: StateModel, index: int, key: Seq<char>)
    requires
        0 <= index < m.current_candidates.len(),
        m.fetch_generation < u64::MAX,
    ensures
        ({
            let c = crate::state::chosen(m, index, Some(key));
            &&& c.current_track_key == Some(key)
            &&& c.current_track == m.current_track
            &&& c.current_candidates == m.current_candidates
            &&& c.selected_candidate_id == Some(m.current_candidates[index].id)
            &&& c.selected_lyrics == Some(crate::lyrics::parsed(m.current_candidates[index]))
            &&& c.current_line_index == 0
            &&& c.loading_best is None
            &&& c.loading_search is None
            &&& c.user_scrolled == m.user_scrolled
            &&& c.fetch_generation == m.fetch_generation + 1
            &&& crate::state::chosen(m, index, None) == (StateModel {
                current_track_key: m.current_track_key,
                ..c
            })
        }),
{
}

/// Under one source, tracks share the key of their lyrics exactly when they share
/// their own; it is the name of the source, a colon and the track's key.
pub proof fn law_key_names_source_and_track(source: LyricsSource, a: TrackModel, b: TrackModel)
    ensures
        crate::spotify::key_of(a).is_suffix_of(crate::state::active_key(source, a)),
        source == LyricsSource::Lrclib ==> crate::state::active_key(source, a) == "lrclib:"@
            + crate::spotify::key_of(a),
        source == LyricsSource::SpotifyOfficial ==> crate::state::active_key(source, a)
            == "spotify_official:"@ + crate::spotify::key_of(a),
        crate::state::active_key(source, a) == crate::state::active_key(source, b)
            <==> crate::spotify::key_of(a) == crate::spotify::key_of(b),
{
    reveal_strlit("lrclib");
    reveal_strlit("spotify_official");
    reveal_strlit(":");
    reveal_strlit("lrclib:");
    reveal_strlit("spotify_official:");
    let x = crate::state::active_key(source, a);
    let y = crate::state::active_key(source, b);
    let name = crate::storage::source_name(source) + ":"@;
    assert(crate::spotify::key_of(a) =~= x.skip(name.len() as int));
    assert(crate::spotify::key_of(b) =~= y.skip(name.len() as int));
    assert("lrclib"@ + ":"@ =~= "lrclib:"@);
    assert("spotify_official"@ + ":"@ =~= "spotify_official:"@);
    assert(x =~= name + crate::spotify::key_of(a));
    assert(crate::spotify::key_of(a) =~= x.subrange(
        x.len() - crate::spotify::key_of(a).len(),
        x.len() as int,
    ));
}

/// A message counts exactly where it is of the current round and of the current
/// track.
pub proof fn law_message_counts_in_its_round(
    m: StateModel,
    source: LyricsSource,
    round: u64,
    key: Seq<char>,
    track: TrackModel,
    candidate: CandidateModel,
    kind: FetchKind,
    error: Seq<char>,
)
    ensures
        ({
            let best = MessageModel::Best {
                fetch_generation: round,
                track_key: key,
                track,
                candidate,
            };
            let failure = MessageModel::Failure {
                fetch_generation: round,
                track_key: key,
                source: kind,
                error,
            };
            let counts = m.current_track_key == Some(key) && m.fetch_generation == round;
            &&& crate::fetching::received(m, source, best).1 == ReceivedModel::Ignored <==> !counts
            &&& crate::fetching::received(m, source, failure).1 == ReceivedModel::Ignored
                <==> !counts
            &&& !counts ==> crate::fetching::received(m, source, best).0 == m
            &&& !counts ==> crate::fetching::received(m, source, failure).0 == m
        }),
{
}

/// A fetch that failed ends the wait for it and changes nothing else; what is
/// shown names the fetch and ends with the error.
pub proof fn law_failure_only_ends_the_wait(
    m: StateModel,
    source: LyricsSource,
    key: Seq<char>,
    kind: FetchKind,
    error: Seq<char>,
)
    requires
        m.current_track_key == Some(key),
    ensures
        ({
            let (after, what) = crate::fetching::received(
                m,
                source,
                MessageModel::Failure {
                    fetch_generation: m.fetch_generation,
                    track_key: key,
                    source: kind,
                    error,
                },
            );
            &&& kind == FetchKind::Search ==> after == (StateModel { loading_search: None, ..m })
            &&& kind != FetchKind::Search ==> after == (StateModel { loading_best: None, ..m })
            &&& kind == FetchKind::Search ==> what == ReceivedModel::Failed(
                "State: search lyrics fetch failed: "@ + error,
            )
            &&& kind == FetchKind::Primary(LyricsSource::Lrclib) ==> what == ReceivedModel::Failed(
                "State: lrclib lyrics fetch failed: "@ + error,
            )
            &&& kind == FetchKind::Primary(LyricsSource::SpotifyOfficial) ==> what
                == ReceivedModel::Failed("State: spotify_official lyrics fetch failed: "@ + error)
        }),
{
    reveal_strlit("State: ");
    reveal_strlit("search");
    reveal_strlit("lrclib");
    reveal_strlit("spotify_official");
    reveal_strlit(" lyrics fetch failed: ");
    reveal_strlit("State: search lyrics fetch failed: ");
    reveal_strlit("State: lrclib lyrics fetch failed: ");
    reveal_strlit("State: spotify_official lyrics fetch failed: ");
    assert("State: "@ + "search"@ + " lyrics fetch failed: "@
        =~= "State: search lyrics fetch failed: "@);
    assert("State: "@ + "lrclib"@ + " lyrics fetch failed: "@
        =~= "State: lrclib lyrics fetch failed: "@);
    assert("State: "@ + "spotify_official"@ + " lyrics fetch failed: "@
        =~= "State: spotify_official lyrics fetch failed: "@);
}

/// What a fetch brought for the current track is all that is shown, whatever was
/// shown before.
pub proof fn law_fetch_replaces_the_lyrics(
    m: StateModel,
    source: LyricsSource,
    track: TrackModel,
    candidate: CandidateModel,
)
    requires
        m.current_track_key == Some(crate::state::active_key(source, track)),
    ensures
        ({
            let after = crate::fetching::received(
                m,
                source,
                MessageModel::Best {
                    fetch_generation: m.fetch_generation,
                    track_key: crate::state::active_key(source, track),
                    track,
                    candidate,
                },
            ).0;
            after == (StateModel {
                current_track_key: m.current_track_key,
                current_track: Some(track),
                current_candidates: seq![candidate],
                selected_candidate_id: Some(candidate.id),
                selected_lyrics: Some(crate::lyrics::parsed(candidate)),
                current_line_index: 0,
                loading_best: None,
                loading_search: m.loading_search,
                user_scrolled: m.user_scrolled,
                fetch_generation: m.fetch_generation,
            })
        }),
{
}

/// What a search found for the current track is what is offered.
pub proof fn law_search_replaces_the_candidates(
    m: StateModel,
    source: LyricsSource,
    key: Seq<char>,
    candidates: Seq<CandidateModel>,
)
    requires
        m.current_track_key == Some(key),
        m.current_track is Some,
    ensures
        crate::fetching::received(
            m,
            source,
            MessageModel::Found {
                fetch_generation: m.fetch_generation,
                track_key: key,
                candidates,
            },
        ) == (
            StateModel { current_candidates: candidates, loading_search: None, ..m },
            ReceivedModel::Listed,
        ),
{
}

/// The first lookup goes before the second: what it finds is shown, and only
/// where it finds nothing what the second finds. An error is shown only where
/// neither finds lyrics nor the second reads that there are none, the first
/// error before the second.
pub proof fn law_first_lookup_goes_first(primary: LookupModel, legacy: Option<LookupModel>)
    ensures
        primary matches Ok(Some(c)) ==> crate::fetching::settled(primary, legacy)
            == LookupStepModel::Apply(c),
        !(primary matches Ok(Some(_))) && (legacy matches Some(Ok(Some(_)))) ==> Some(
            Ok::<Option<crate::storage::CachedModel>, Seq<char>>(
                Some(crate::fetching::settled(primary, legacy)->Apply_0),
            ),
        ) == legacy,
        crate::fetching::settled(primary, legacy) is Fetch <==> {
            ||| !(primary matches Ok(Some(_))) && (legacy matches Some(Ok(None)))
            ||| (primary matches Ok(None)) && legacy is None
        },
        crate::fetching::settled(primary, legacy) matches LookupStepModel::ReportAndFetch(text) ==> {
            &&& primary matches Err(e) ==> text == "State: Cache read failed: "@ + e
            &&& primary matches Ok(None) ==> (legacy matches Some(Err(e)) && text
                == "State: Cache read failed: "@ + e)
        },
{
}

/// The plain key is looked up for LRCLIB only, and only where the lookup before
/// found nothing.
pub proof fn law_plain_key_is_for_lrclib(source: LyricsSource, primary: LookupModel)
    ensures
        crate::fetching::wants_legacy(LyricsSource::SpotifyOfficial, primary) == false,
        primary matches Ok(Some(_)) ==> !crate::fetching::wants_legacy(source, primary),
        primary matches Ok(None) ==> crate::fetching::wants_legacy(LyricsSource::Lrclib, primary),
        primary is Err ==> crate::fetching::wants_legacy(LyricsSource::Lrclib, primary),
{
}

/// Right after the lyrics that LRCLIB served for the current track are shown,
/// with no search under way, opening the change of lyrics searches for the track.
pub proof fn law_change_after_a_fetch_searches(
    m: StateModel,
    track: TrackModel,
    candidate: CandidateModel,
)
    requires
        m.current_track_key == Some(crate::state::active_key(LyricsSource::Lrclib, track)),
        m.loading_search is None,
    ensures
        ({
            let key = crate::state::active_key(LyricsSource::Lrclib, track);
            let after = crate::fetching::received(
                m,
                LyricsSource::Lrclib,
                MessageModel::Best {
                    fetch_generation: m.fetch_generation,
                    track_key: key,
                    track,
                    candidate,
                },
            ).0;
            crate::fetching::change_step(
                after,
                LyricsSource::Lrclib,
                crate::state::current_active_key(after, LyricsSource::Lrclib),
            ) == ChangeStepModel::Search(key)
        }),
{
}

/// Opening the change of lyrics while its search is under way shows what is
/// there, and does not search again; a search that failed can be begun again.
pub proof fn law_search_is_begun_once(
    m: StateModel,
    source: LyricsSource,
    key: Seq<char>,
    error: Seq<char>,
)
    requires
        m.current_track_key == Some(key),
        crate::fetching::change_step(m, source, Some(key)) == ChangeStepModel::Search(key),
    ensures
        ({
            let begun = StateModel { loading_search: Some(key), ..m };
            let failed = crate::fetching::received(
                begun,
                source,
                MessageModel::Failure {
                    fetch_generation: m.fetch_generation,
                    track_key: key,
                    source: FetchKind::Search,
                    error,
                },
            ).0;
            &&& crate::fetching::change_step(begun, source, Some(key)) == ChangeStepModel::ShowRows
            &&& crate::fetching::change_step(failed, source, Some(key)) == ChangeStepModel::Search(
                key,
            )
        }),
{
}

/// After a search the change of lyrics shows its results where there is a choice
/// among them, and searches again where there is none.
pub proof fn law_search_results_are_offered(
    m: StateModel,
    key: Seq<char>,
    candidates: Seq<CandidateModel>,
)
    requires
        m.current_track_key == Some(key),
        m.current_track is Some,
    ensures
        ({
            let after = crate::fetching::received(
                m,
                LyricsSource::Lrclib,
                MessageModel::Found {
                    fetch_generation: m.fetch_generation,
                    track_key: key,
                    candidates,
                },
            ).0;
            let step = crate::fetching::change_step(after, LyricsSource::Lrclib, Some(key));
            &&& candidates.len() >= 2 ==> step == ChangeStepModel::ShowRows
            &&& candidates.len() < 2 ==> step == ChangeStepModel::Search(key)
        }),
{
}

/// Spotify's own lyrics are never searched for, and without a track there is
/// nothing to change.
pub proof fn law_official_lyrics_are_not_searched(
    m: StateModel,
    source: LyricsSource,
    key: Seq<char>,
)
    ensures
        crate::fetching::change_step(m, LyricsSource::SpotifyOfficial, Some(key))
            == ChangeStepModel::ShowRows,
        crate::fetching::change_step(m, source, None) == ChangeStepModel::Nothing,
        m.current_track is None ==> crate::fetching::change_step(
            m,
            source,
            crate::state::current_active_key(m, source),
        ) == ChangeStepModel::Nothing,
        m.current_track matches Some(t) ==> crate::state::current_active_key(m, source) == Some(
            crate::state::active_key(source, t),
        ),
{
}

/// What is begun is begun once: the first begin gives the round, in which the
/// reply counts, and another one for the same track gives none and changes
/// nothing. Only what is awaited changes.
pub proof fn law_fetch_is_begun_once(m: StateModel, key: Seq<char>)
    ensures
        ({
            let (a, first) = crate::fetching::begun_fetch(m, key);
            let (b, round) = crate::fetching::begun_search(m, key);
            &&& crate::fetching::begun_fetch(a, key) == (a, None::<u64>)
            &&& crate::fetching::begun_search(b, key) == (b, None::<u64>)
            &&& a == (StateModel { loading_best: Some(key), ..m })
            &&& b == (StateModel { loading_search: Some(key), ..m })
            &&& m.loading_best != Some(key) ==> first == Some(m.fetch_generation)
            &&& m.loading_search != Some(key) ==> round == Some(m.fetch_generation)
            &&& m.current_track_key == Some(key) && first is Some ==> crate::state::is_fresh(
                a,
                first->0,
                key,
            )
            &&& m.current_track_key == Some(key) && round is Some ==> crate::state::is_fresh(
                b,
                round->0,
                key,
            )
        }),
{
}

/// A search that the change of lyrics asks for can be begun.
pub proof fn law_wanted_search_can_be_begun(m: StateModel, source: LyricsSource, key: Seq<char>)
    requires
        crate::fetching::change_step(m, source, Some(key)) == ChangeStepModel::Search(key),
    ensures
        crate::fetching::begun_search(m, key).1 == Some(m.fetch_generation),
        crate::fetching::change_step(
            crate::fetching::begun_search(m, key).0,
            source,
            Some(key),
        ) == ChangeStepModel::ShowRows,
{
}

/// A track that is seen is new exactly where it is not the one that is current;
/// seen again it is the same, and when nothing plays nothing is current.
pub proof fn law_snapshots_tell_changes(
    m: StateModel,
    source: LyricsSource,
    track: TrackModel,
    later: TrackModel,
)
    requires
        crate::spotify::key_of(later) == crate::spotify::key_of(track),
    ensures
        ({
            let (once, step) = crate::state::after_snapshot(m, source, Some(track));
            let (gone, stop) = crate::state::after_snapshot(m, source, None);
            &&& step == SnapshotStep::Same <==> m.current_track_key == Some(
                crate::state::active_key(source, track),
            )
            &&& step == SnapshotStep::Changed <==> m.current_track_key != Some(
                crate::state::active_key(source, track),
            )
            &&& step == SnapshotStep::Changed ==> once.selected_lyrics is None
                && once.current_candidates.len() == 0
            &&& step == SnapshotStep::Same ==> once.selected_lyrics == m.selected_lyrics
                && once.current_candidates == m.current_candidates
            &&& once.current_track == Some(track)
            &&& once.current_track_key == Some(crate::state::active_key(source, track))
            &&& crate::state::after_snapshot(once, source, Some(later)) == (
                StateModel { current_track: Some(later), ..once },
                SnapshotStep::Same,
            )
            &&& stop == SnapshotStep::Stopped
            &&& gone == crate::state::cleared(m)
            &&& crate::state::after_snapshot(gone, source, Some(track)).1 == SnapshotStep::Changed
        }),
{
    law_key_names_source_and_track(source, track, later);
}

/// Looking the current track up afresh keeps the track, under the key of the
/// source, and forgets its lyrics; without a track nothing changes.
pub proof fn law_reload_keeps_the_track(m: StateModel, source: LyricsSource)
    ensures
        m.current_track is None ==> crate::state::reloaded(m, source) == m,
        m.current_track matches Some(t) ==> {
            let r = crate::state::reloaded(m, source);
            &&& r.current_track == Some(t)
            &&& r.current_track_key == Some(crate::state::active_key(source, t))
            &&& r.selected_lyrics is None
            &&& r.loading_best is None
            &&& m.fetch_generation < u64::MAX ==> r.fetch_generation == m.fetch_generation + 1
        },
{
}

/// Choosing shows a candidate that is there, and changes nothing where there is
/// none at that place.
pub proof fn law_only_offered_candidates_are_chosen(
    m: StateModel,
    source: LyricsSource,
    index: int,
)
    requires
        0 <= index,
    ensures
        index >= m.current_candidates.len() ==> crate::state::after_choice(m, source, index) == (
            m,
            None::<i64>,
        ),
        index < m.current_candidates.len() ==> {
            let (after, id) = crate::state::after_choice(m, source, index);
            &&& id == Some(m.current_candidates[index].id)
            &&& after.selected_candidate_id == id
            &&& after.selected_lyrics == Some(crate::lyrics::parsed(m.current_candidates[index]))
            &&& after.current_candidates == m.current_candidates
            &&& after.current_track == m.current_track
        },
{
}

} // verus!
