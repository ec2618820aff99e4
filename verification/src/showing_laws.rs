//! What holds of how lyrics are shown, and of the texts that say what happens.
use vstd::prelude::*;

use crate::lrc::LineModel;
use crate::lyrics::LyricsModel;
use crate::markup::{LineStyle, LyricsView, Progress, ScrollStep};
use crate::spotify::TrackModel;
use crate::state::StateModel;
use crate::storage::LyricsSource;

verus! {

/// How much of a line has been sung: its begin and what has elapsed make up the
/// position, its begin and its span make up the begin of the next one. Before the
/// line nothing has elapsed; a line without a span is sung at once.
pub proof fn law_elapsed_makes_up_the_position(position: u64, line_time: u64, next_time: u64)
    ensures
        next_time <= line_time <==> crate::markup::progress_at(
            position as int,
            line_time,
            next_time,
        ) == Progress::Full,
        next_time > line_time ==> (crate::markup::progress_at(
            position as int,
            line_time,
            next_time,
        ) matches Progress::Part { elapsed, span } && {
            &&& line_time + span == next_time
            &&& position >= line_time ==> line_time + elapsed == position
            &&& position < line_time ==> elapsed == 0
        }),
{
}

/// As the position grows, never less of a line has been sung.
pub proof fn law_progress_never_shrinks(
    earlier: u64,
    later: u64,
    line_time: u64,
    next_time: u64,
)
    requires
        earlier <= later,
        line_time < next_time,
    ensures
        ({
            let a = crate::markup::progress_at(earlier as int, line_time, next_time);
            let b = crate::markup::progress_at(later as int, line_time, next_time);
            &&& a is Part
            &&& b is Part
            &&& a->elapsed <= b->elapsed
            &&& a->span == b->span
        }),
{
}

/// A line lasts until the next one begins, the last one a second and a half.
pub proof fn law_line_lasts_until_the_next(lines: Seq<LineModel>, i: int)
    requires
        0 <= i < lines.len(),
    ensures
        i < lines.len() - 1 ==> crate::markup::next_time_of(lines, i) == lines[i + 1].time_ms,
        i == lines.len() - 1 && lines[i].time_ms <= i64::MAX ==> crate::markup::next_time_of(
            lines,
            i,
        ) == lines[i].time_ms + 1500,
{
}

/// The highlighted line is the current one, the last where there are fewer.
pub proof fn law_current_line_is_highlighted(m: StateModel, n: nat)
    requires
        m.current_line_index >= 0,
        n > 0,
    ensures
        m.current_line_index < n ==> crate::markup::highlighted(m, n) == m.current_line_index,
        m.current_line_index >= n ==> crate::markup::highlighted(m, n) == n - 1,
{
}

/// The current line is highlighted as far as it has been sung where characters
/// are followed, else as a whole, and every other line is dim.
pub proof fn law_line_looks_as_it_is_sung(
    m: StateModel,
    track: TrackModel,
    lines: Seq<LineModel>,
    i: int,
    offset_ms: i32,
)
    requires
        0 <= i < lines.len(),
        m.current_line_index >= 0,
        m.current_track == Some(track),
        track.position_ms <= i64::MAX,
        lines[i].time_ms <= track.position_ms + offset_ms <= i64::MAX,
    ensures
        i != m.current_line_index && m.current_line_index < lines.len() ==> {
            &&& crate::markup::style_of(m, lines, i, true, offset_ms) == LineStyle::Dim
            &&& crate::markup::style_of(m, lines, i, false, offset_ms) == LineStyle::Dim
        },
        i == m.current_line_index ==> {
            &&& crate::markup::style_of(m, lines, i, false, offset_ms) == LineStyle::Current
            &&& crate::markup::style_of(m, lines, i, true, offset_ms) is Follow
            &&& i < lines.len() - 1 && lines[i + 1].time_ms > lines[i].time_ms ==> (
            crate::markup::style_of(m, lines, i, true, offset_ms) matches LineStyle::Follow(
                Progress::Part { elapsed, span },
            ) && {
                &&& lines[i].time_ms + elapsed == track.position_ms + offset_ms
                &&& lines[i].time_ms + span == lines[i + 1].time_ms
            })
        },
{
    crate::state_laws::law_offset_is_added_to_the_position(track.position_ms, offset_ms);
    assert(crate::markup::current_position(m, offset_ms) == track.position_ms + offset_ms);
}

/// Every label gets the look of its line; labels that are not as many as the
/// lines get none.
pub proof fn law_every_label_gets_its_look(
    m: StateModel,
    lyrics: LyricsModel,
    widgets: nat,
    char_follow: bool,
    offset_ms: i32,
)
    requires
        m.selected_lyrics == Some(lyrics),
    ensures
        ({
            let styles = crate::markup::styles_of(m, widgets, char_follow, offset_ms);
            &&& lyrics.lines.len() > 0 ==> (styles is Some <==> widgets == lyrics.lines.len())
            &&& lyrics.lines.len() == 0 ==> (styles is Some <==> widgets
                == lyrics.plain_lines.len())
            &&& styles matches Some(s) ==> s.len() == widgets && forall|i: int|
                0 <= i < widgets ==> #[trigger] s[i] == if lyrics.lines.len() > 0 {
                    crate::markup::style_of(m, lyrics.lines, i, char_follow, offset_ms)
                } else {
                    LineStyle::Dim
                }
        }),
        crate::markup::styles_of(
            StateModel { selected_lyrics: None, ..m },
            widgets,
            char_follow,
            offset_ms,
        ) is None,
{
}

/// Lines with times are shown before lines without, and a text stands in only
/// where there are neither.
pub proof fn law_lines_are_shown(m: StateModel, lyrics: LyricsModel)
    requires
        m.selected_lyrics == Some(lyrics),
    ensures
        crate::markup::view_of(m) == LyricsView::Synced <==> lyrics.lines.len() > 0,
        crate::markup::view_of(m) == LyricsView::Plain <==> lyrics.lines.len() == 0
            && lyrics.plain_lines.len() > 0,
        crate::markup::placeholder_of(crate::markup::view_of(m)) is Some <==> lyrics.lines.len()
            == 0 && lyrics.plain_lines.len() == 0,
        crate::markup::view_of(StateModel { selected_lyrics: None, ..m })
            == LyricsView::NotLoaded,
        crate::markup::placeholder_of(LyricsView::NotLoaded) is Some,
{
}

/// The area scrolls to the highlighted line, unless the user scrolled away; then
/// following can be resumed, and resuming it scrolls there again.
pub proof fn law_lyrics_scroll_to_the_current_line(m: StateModel, lyrics: LyricsModel)
    requires
        m.wf(),
        m.selected_lyrics == Some(lyrics),
        lyrics.lines.len() <= usize::MAX,
    ensures
        crate::markup::scroll_of(StateModel { user_scrolled: true, ..m }) == ScrollStep::ShowSync,
        lyrics.lines.len() > 0 ==> (crate::markup::scroll_of(
            StateModel { user_scrolled: false, ..m },
        ) matches ScrollStep::ScrollTo(i) && i == m.current_line_index),
        lyrics.lines.len() == 0 ==> crate::markup::scroll_of(
            StateModel { user_scrolled: false, ..m },
        ) == ScrollStep::HideSync,
        crate::markup::scroll_of(
            StateModel { user_scrolled: false, selected_lyrics: None, ..m },
        ) == ScrollStep::Nothing,
{
}

/// The state says that nothing is awaited exactly where nothing is.
pub proof fn law_idle_is_idle(m: StateModel, source: LyricsSource)
    ensures
        crate::status::loading_of(m, source) == "idle"@ <==> m.loading_best is None
            && m.loading_search is None,
        m.loading_best is None && m.loading_search is Some ==> crate::status::loading_of(m, source)
            == "search loading"@,
        m.loading_best is Some && m.loading_search == m.loading_best
            ==> crate::status::loading_of(m, source) == "best/search loading same track"@,
        m.loading_best is Some && m.loading_search is Some && m.loading_search != m.loading_best
            ==> crate::status::loading_of(m, source) == "best + search loading"@,
        m.loading_best is Some && m.loading_search is None && source == LyricsSource::Lrclib
            ==> crate::status::loading_of(m, source) == "best loading"@,
        m.loading_best is Some && m.loading_search is None && source
            == LyricsSource::SpotifyOfficial ==> crate::status::loading_of(m, source)
            == "spotify official loading"@,
{
    reveal_strlit("idle");
    reveal_strlit("search loading");
    reveal_strlit("best/search loading same track");
    reveal_strlit("best + search loading");
    reveal_strlit("best loading");
    reveal_strlit("spotify official loading");
    assert("idle"@.len() == 4);
    assert("search loading"@.len() > 4);
    assert("best/search loading same track"@.len() > 4);
    assert("best + search loading"@.len() > 4);
    assert("best loading"@.len() > 4);
    assert("spotify official loading"@.len() > 4);
}

/// The lines for the curious name the track by artist and title, and where it is.
pub proof fn law_lines_name_the_track(m: StateModel, track: TrackModel, offset_ms: i32, id: i64)
    requires
        m.current_track == Some(track),
    ensures
        crate::status::track_line(m) == "Track: "@ + track.artist + " - "@ + track.title,
        crate::status::playback_line(m, offset_ms) == "Playback: "@ + track.album + " • "@
            + track.playback_status + " • "@ + crate::digits::decimal(track.position_ms as nat)
            + " ms • offset "@ + crate::digits::signed_decimal(offset_ms as int) + " ms"@,
        crate::status::candidate_line(StateModel { selected_candidate_id: Some(id), ..m })
            == "Candidate: "@ + crate::digits::signed_decimal(id as int),
{
    assert(crate::status::track_line(m) =~= "Track: "@ + track.artist + " - "@ + track.title);
}

/// The line about the state says what is awaited and each setting by its value.
pub proof fn law_state_line_names_the_settings(
    m: StateModel,
    s: crate::storage::SettingsModel,
    opacity: Seq<char>,
)
    ensures
        ({
            let topmost = if s.topmost {
                "true"@
            } else {
                "false"@
            };
            let follow = if s.char_follow {
                "true"@
            } else {
                "false"@
            };
            let source = if s.lyrics_source == LyricsSource::Lrclib {
                "lrclib"@
            } else {
                "spotify_official"@
            };
            crate::status::state_line(m, s, opacity) == "State: "@ + crate::status::loading_of(
                m,
                s.lyrics_source,
            ) + " • topmost="@ + topmost + " • opacity="@ + opacity + " • char="@ + follow
                + " • source="@ + source + " • offset="@ + crate::digits::signed_decimal(
                s.timing_offset_ms as int,
            ) + "ms"@
        }),
{
}

/// Without a track or a selected candidate the lines say so.
pub proof fn law_lines_say_that_nothing_is_there(m: StateModel, offset_ms: i32)
    ensures
        m.current_track is None ==> crate::status::track_line(m) == "Track: none"@,
        m.current_track is None ==> crate::status::playback_line(m, offset_ms)
            == "Playback: none"@,
        m.selected_candidate_id is None ==> crate::status::candidate_line(m)
            == "Candidate: none"@,
{
}

} // verus!
