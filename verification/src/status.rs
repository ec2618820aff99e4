//! The texts that say what the application is doing.
use vstd::prelude::*;

use crate::config::AppConfig;
use crate::digits::{decimal_text, signed_decimal_text};
use crate::markup::header_text;
use crate::state::{RuntimeState, StateModel};
use crate::storage::{LyricsSource, SettingsModel};
use crate::text::same_text;

verus! {

/// What is being waited for.
pub open spec fn loading_of(m: StateModel, source: LyricsSource) -> Seq<char> {
    match (m.loading_best, m.loading_search) {
        (Some(best), Some(search)) => if best == search {
            "best/search loading same track"@
        } else {
            "best + search loading"@
        },
        (Some(_), None) => match source {
            LyricsSource::SpotifyOfficial => "spotify official loading"@,
            LyricsSource::Lrclib => "best loading"@,
        },
        (None, Some(_)) => "search loading"@,
        (None, None) => "idle"@,
    }
}

/// A truth value as a text.
pub open spec fn bool_of(b: bool) -> Seq<char> {
    if b {
        "true"@
    } else {
        "false"@
    }
}

/// The line about the track.
pub open spec fn track_line(m: StateModel) -> Seq<char> {
    match m.current_track {
        Some(t) => "Track: "@ + (t.artist + " - "@ + t.title),
        None => "Track: none"@,
    }
}

/// The line about playback.
pub open spec fn playback_line(m: StateModel, offset_ms: i32) -> Seq<char> {
    match m.current_track {
        Some(t) => "Playback: "@ + t.album + " • "@ + t.playback_status + " • "@
            + crate::digits::decimal(t.position_ms as nat) + " ms • offset "@
            + crate::digits::signed_decimal(offset_ms as int) + " ms"@,
        None => "Playback: none"@,
    }
}

/// The line about the state and the settings; the opacity is given as a text.
pub open spec fn state_line(m: StateModel, s: SettingsModel, opacity: Seq<char>) -> Seq<char> {
    "State: "@ + loading_of(m, s.lyrics_source) + " • topmost="@ + bool_of(s.topmost)
        + " • opacity="@ + opacity + " • char="@ + bool_of(s.char_follow) + " • source="@
        + crate::storage::source_name(s.lyrics_source) + " • offset="@
        + crate::digits::signed_decimal(s.timing_offset_ms as int) + "ms"@
}

/// The line about the selected candidate.
pub open spec fn candidate_line(m: StateModel) -> Seq<char> {
    match m.selected_candidate_id {
        Some(id) => "Candidate: "@ + crate::digits::signed_decimal(id as int),
        None => "Candidate: none"@,
    }
}

/// The lines for the curious.
#[derive(Debug)]
pub struct DebugLines {
    pub track: String,
    pub playback: String,
    pub state: String,
    pub candidate: String,
    pub timing: String,
}

/// What is being waited for.
fn loading_text(state: &RuntimeState, source: LyricsSource) -> (r: &'static str)
    ensures
        r@ == loading_of(state@, source),
{
    match (&state.loading_best, &state.loading_search) {
        (Some(best), Some(search)) => {
            if same_text(best.as_str(), search.as_str()) {
                "best/search loading same track"
            } else {
                "best + search loading"
            }
        },
        (Some(_), None) => match source {
            LyricsSource::SpotifyOfficial => "spotify official loading",
            LyricsSource::Lrclib => "best loading",
        },
        (None, Some(_)) => "search loading",
        (None, None) => "idle",
    }
}

fn bool_text(b: bool) -> (r: &'static str)
    ensures
        r@ == bool_of(b),
{
    if b {
        "true"
    } else {
        "false"
    }
}

/// The lines for the curious; the opacity is given as a text.
pub fn debug_lines(state: &RuntimeState, config: &AppConfig, opacity: &str) -> (r: DebugLines)
    ensures
        r.track@ == track_line(state@),
        r.playback@ == playback_line(state@, config@.timing_offset_ms),
        r.state@ == state_line(state@, config@, opacity@),
        r.candidate@ == candidate_line(state@),
        r.timing@
            == "Timing: positive offset advances the highlight. Character-follow is heuristic and line-based."@,
{
    let track: String = match &state.current_track {
        Some(t) => {
            let mut line = "Track: ".to_owned();
            line.append(header_text(t).as_str());
            line
        },
        None => "Track: none".to_owned(),
    };
    let playback: String = match &state.current_track {
        Some(t) => {
            let mut line = "Playback: ".to_owned();
            line.append(t.album.as_str());
            line.append(" • ");
            line.append(t.playback_status.as_str());
            line.append(" • ");
            line.append(decimal_text(t.position_ms).as_str());
            line.append(" ms • offset ");
            line.append(signed_decimal_text(config.timing_offset_ms as i64).as_str());
            line.append(" ms");
            line
        },
        None => "Playback: none".to_owned(),
    };
    let candidate: String = match state.selected_candidate_id {
        Some(id) => {
            let mut line = "Candidate: ".to_owned();
            line.append(signed_decimal_text(id).as_str());
            line
        },
        None => "Candidate: none".to_owned(),
    };
    let mut line = "State: ".to_owned();
    line.append(loading_text(state, config.lyrics_source));
    line.append(" • topmost=");
    line.append(bool_text(config.topmost));
    line.append(" • opacity=");
    line.append(opacity);
    line.append(" • char=");
    line.append(bool_text(config.char_follow));
    line.append(" • source=");
    line.append(config.lyrics_source.as_str());
    line.append(" • offset=");
    line.append(signed_decimal_text(config.timing_offset_ms as i64).as_str());
    line.append("ms");
    DebugLines {
        track,
        playback,
        state: line,
        candidate,
        timing:
            "Timing: positive offset advances the highlight. Character-follow is heuristic and line-based.".to_owned(),
    }
}

/// The text while the lyrics of a track are fetched.
pub fn fetching_text(source: LyricsSource) -> (r: &'static str)
    ensures
        r@ == match source {
            LyricsSource::Lrclib => "State: Loading LRCLIB lyrics..."@,
            LyricsSource::SpotifyOfficial => "State: Loading Spotify official lyrics..."@,
        },
{
    match source {
        LyricsSource::Lrclib => "State: Loading LRCLIB lyrics...",
        LyricsSource::SpotifyOfficial => "State: Loading Spotify official lyrics...",
    }
}

/// The text when lyrics could not be kept.
pub open spec fn save_failure(error: Seq<char>) -> Seq<char> {
    "State: Cache save failed: "@ + error
}

fn save_failure_text(error: &str) -> (r: String)
    ensures
        r@ == save_failure(error@),
{
    let mut text = "State: Cache save failed: ".to_owned();
    text.append(error);
    text
}

/// The text after lyrics were shown; `saved` says what came of keeping them.
pub fn shown_text(saved: &Result<(), String>, from_cache: bool) -> (r: String)
    ensures
        r@ == match saved {
            Err(e) => save_failure(e@),
            Ok(()) => if from_cache {
                "State: Loaded from cache"@
            } else {
                "State: Loaded lyrics"@
            },
        },
{
    match saved {
        Err(e) => save_failure_text(e.as_str()),
        Ok(()) => if from_cache {
            "State: Loaded from cache".to_owned()
        } else {
            "State: Loaded lyrics".to_owned()
        },
    }
}

/// The text after candidates were offered.
pub fn listed_text(from_cache: bool) -> (r: &'static str)
    ensures
        r@ == if from_cache {
            "State: Loaded candidate list from cache"@
        } else {
            "State: Search results ready"@
        },
{
    if from_cache {
        "State: Loaded candidate list from cache"
    } else {
        "State: Search results ready"
    }
}

/// The text after a candidate was chosen; `saved` says what came of keeping
/// the choice.
pub fn chosen_text(saved: &Result<(), String>, id: i64) -> (r: String)
    ensures
        r@ == match saved {
            Err(e) => save_failure(e@),
            Ok(()) => "State: Selected candidate "@ + crate::digits::signed_decimal(id as int),
        },
{
    match saved {
        Err(e) => save_failure_text(e.as_str()),
        Ok(()) => {
            let mut text = "State: Selected candidate ".to_owned();
            text.append(signed_decimal_text(id).as_str());
            text
        },
    }
}

/// The text when the player could not be asked.
pub fn player_failure_text(error: &str) -> (r: String)
    ensures
        r@ == "State: DBus read failed: "@ + error@,
{
    let mut text = "State: DBus read failed: ".to_owned();
    text.append(error);
    text
}

/// The text when settings could not be saved.
pub fn settings_failure_text(error: &str) -> (r: String)
    ensures
        r@ == "State: settings save failed: "@ + error@,
{
    let mut text = "State: settings save failed: ".to_owned();
    text.append(error);
    text
}

/// The text while the user scrolls; the place is given as a text.
pub fn manual_scroll_text(value: &str) -> (r: String)
    ensures
        r@ == "Timing: manual scroll at "@ + value@,
{
    let mut text = "Timing: manual scroll at ".to_owned();
    text.append(value);
    text
}

/// The text below a candidate's title; the length in seconds is given as a
/// text.
pub fn candidate_meta(id: i64, seconds: &str) -> (r: String)
    ensures
        r@ == "id "@ + crate::digits::signed_decimal(id as int) + " • "@ + seconds@ + "s"@,
{
    let mut text = "id ".to_owned();
    text.append(signed_decimal_text(id).as_str());
    text.append(" • ");
    text.append(seconds);
    text.append("s");
    text
}

} // verus!
