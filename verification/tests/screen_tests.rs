//! What the user sees.
use spotify_lyrics::config::AppConfig;
use spotify_lyrics::lyrics::{LyricLine, ParsedLyrics};
use spotify_lyrics::markup::{
    char_follow_markup, current_markup, dim_markup, header_markup, header_text, line_progress,
    placeholder, split_text, LineStyle, LyricsView, Progress, ScrollStep,
};
use spotify_lyrics::spotify::TrackInfo;
use spotify_lyrics::state::RuntimeState;
use spotify_lyrics::status::{
    candidate_meta, chosen_text, debug_lines, fetching_text, listed_text, manual_scroll_text,
    player_failure_text, settings_failure_text, shown_text,
};
use spotify_lyrics::storage::LyricsSource;
use spotify_lyrics::window::{
    geometry_fits, geometry_matches, to_unsigned, topmost_request, Attempt, AttemptStep, Geometry,
    GeometryRestore,
};

fn track(position_ms: u64) -> TrackInfo {
    TrackInfo {
        track_id: None,
        spotify_url: None,
        artist: "Artist".to_string(),
        title: "Title".to_string(),
        album: "Album".to_string(),
        duration_ms: 60_000,
        position_ms,
        playback_status: "Playing".to_string(),
    }
}

fn lyrics(times: &[u64], plain: &[&str]) -> ParsedLyrics {
    ParsedLyrics {
        lines: times
            .iter()
            .map(|t| LyricLine { time_ms: *t, text: format!("line {t}") })
            .collect(),
        plain_lines: plain.iter().map(|s| s.to_string()).collect(),
    }
}

fn at(x: i32, y: i32, width: i32, height: i32) -> Geometry {
    Geometry { x, y, width, height }
}

#[test]
fn views_of_lyrics() {
    let mut state = RuntimeState::new();
    assert_eq!(state.lyrics_view(), LyricsView::NotLoaded);
    assert_eq!(placeholder(state.lyrics_view()), Some("No lyrics loaded yet."));
    state.selected_lyrics = Some(lyrics(&[], &[]));
    assert_eq!(state.lyrics_view(), LyricsView::NoContent);
    assert_eq!(placeholder(state.lyrics_view()), Some("No lyrics content"));
    state.selected_lyrics = Some(lyrics(&[], &["a"]));
    assert_eq!(state.lyrics_view(), LyricsView::Plain);
    assert_eq!(placeholder(state.lyrics_view()), None);
    state.selected_lyrics = Some(lyrics(&[1], &["a"]));
    assert_eq!(state.lyrics_view(), LyricsView::Synced);
}

#[test]
fn progress_of_a_line() {
    assert_eq!(line_progress(1_500, 1_000, 3_000), Progress::Part { elapsed: 500, span: 2_000 });
    assert_eq!(line_progress(500, 1_000, 3_000), Progress::Part { elapsed: 0, span: 2_000 });
    assert_eq!(line_progress(9_000, 1_000, 3_000), Progress::Part { elapsed: 8_000, span: 2_000 });
    assert_eq!(line_progress(1_500, 1_000, 1_000), Progress::Full);
}

#[test]
fn one_line_is_highlighted() {
    let mut state = RuntimeState::new();
    assert_eq!(state.line_styles(0, false, 0), None);
    state.selected_lyrics = Some(lyrics(&[1_000, 2_000, 4_000], &[]));
    state.current_line_index = 1;
    assert_eq!(
        state.line_styles(3, false, 0),
        Some(vec![LineStyle::Dim, LineStyle::Current, LineStyle::Dim])
    );
    assert_eq!(state.line_styles(2, false, 0), None);
    state.current_track = Some(track(2_400));
    assert_eq!(
        state.line_styles(3, true, 100),
        Some(vec![
            LineStyle::Dim,
            LineStyle::Follow(Progress::Part { elapsed: 500, span: 2_000 }),
            LineStyle::Dim,
        ])
    );
    state.current_line_index = 7;
    assert_eq!(
        state.line_styles(3, true, 2_600),
        Some(vec![
            LineStyle::Dim,
            LineStyle::Dim,
            LineStyle::Follow(Progress::Part { elapsed: 1_000, span: 1_500 }),
        ])
    );
}

#[test]
fn last_line_at_the_end_of_time() {
    let mut state = RuntimeState::new();
    state.selected_lyrics = Some(lyrics(&[u64::MAX - 10], &[]));
    assert_eq!(
        state.line_styles(1, true, 0),
        Some(vec![LineStyle::Follow(Progress::Part { elapsed: 0, span: 10 })])
    );
    state.selected_lyrics = Some(lyrics(&[u64::MAX], &[]));
    assert_eq!(
        state.line_styles(1, true, 0),
        Some(vec![LineStyle::Follow(Progress::Full)])
    );
}

#[test]
fn plain_lines_are_dim() {
    let mut state = RuntimeState::new();
    state.selected_lyrics = Some(lyrics(&[], &["a", "b"]));
    assert_eq!(
        state.line_styles(2, true, 0),
        Some(vec![LineStyle::Dim, LineStyle::Dim])
    );
    assert_eq!(state.line_styles(3, true, 0), None);
}

#[test]
fn scrolling_follows_until_the_user_scrolls() {
    let mut state = RuntimeState::new();
    assert_eq!(state.scroll_step(), ScrollStep::Nothing);
    state.selected_lyrics = Some(lyrics(&[], &["a"]));
    assert_eq!(state.scroll_step(), ScrollStep::HideSync);
    state.selected_lyrics = Some(lyrics(&[1, 2], &[]));
    state.current_line_index = 1;
    assert_eq!(state.scroll_step(), ScrollStep::ScrollTo(1));
    state.current_line_index = 9;
    assert_eq!(state.scroll_step(), ScrollStep::ScrollTo(1));
    state.mark_manual_scroll();
    assert_eq!(state.scroll_step(), ScrollStep::ShowSync);
    state.resume_following();
    assert_eq!(state.scroll_step(), ScrollStep::ScrollTo(1));
}

#[test]
fn markup_of_lines() {
    assert_eq!(dim_markup("a &amp; b"), "<span foreground=\"#c8c8c8\">a &amp; b</span>");
    assert_eq!(
        current_markup("x"),
        "<span size=\"x-large\" weight=\"bold\" foreground=\"#ffd36b\">x</span>"
    );
    assert_eq!(
        char_follow_markup("abc", "ab", "c"),
        "<span size=\"x-large\" weight=\"bold\"><span foreground=\"#ffd36b\">ab</span><span foreground=\"#c8c8c8\">c</span></span>"
    );
    assert_eq!(char_follow_markup("", "", ""), "<span foreground=\"#ffd36b\"></span>");
}

#[test]
fn texts_are_split_by_characters() {
    let both = |text: &str, n: usize| split_text(text, n);
    assert_eq!(both("歌詞x", 2), ("歌詞".to_string(), "x".to_string()));
    assert_eq!(both("ab", 0), ("".to_string(), "ab".to_string()));
    assert_eq!(both("ab", 9), ("ab".to_string(), "".to_string()));
}

#[test]
fn header_of_a_track() {
    assert_eq!(header_text(&track(0)), "Artist - Title");
    assert_eq!(header_markup("A &amp; B"), "<b>A &amp; B</b>");
}

#[test]
fn lines_for_the_curious() {
    let mut state = RuntimeState::new();
    let mut config = AppConfig::default();
    let lines = debug_lines(&state, &config, "0.94");
    assert_eq!(lines.track, "Track: none");
    assert_eq!(lines.playback, "Playback: none");
    assert_eq!(
        lines.state,
        "State: idle • topmost=true • opacity=0.94 • char=false • source=lrclib • offset=0ms"
    );
    assert_eq!(lines.candidate, "Candidate: none");
    assert_eq!(
        lines.timing,
        "Timing: positive offset advances the highlight. Character-follow is heuristic and line-based."
    );
    state.current_track = Some(track(1_234));
    state.selected_candidate_id = Some(-3);
    config.timing_offset_ms = -50;
    config.topmost = false;
    config.char_follow = true;
    config.lyrics_source = LyricsSource::SpotifyOfficial;
    state.loading_best = Some("k".to_string());
    let lines = debug_lines(&state, &config, "0.50");
    assert_eq!(lines.track, "Track: Artist - Title");
    assert_eq!(lines.playback, "Playback: Album • Playing • 1234 ms • offset -50 ms");
    assert_eq!(
        lines.state,
        "State: spotify official loading • topmost=false • opacity=0.50 • char=true • source=spotify_official • offset=-50ms"
    );
    assert_eq!(lines.candidate, "Candidate: -3");
}

#[test]
fn what_is_being_loaded() {
    let mut state = RuntimeState::new();
    let config = AppConfig::default();
    let loading = |state: &RuntimeState| {
        let line = debug_lines(state, &config, "").state;
        line.split(" • ").next().map(|s| s.to_string())
    };
    state.loading_best = Some("k".to_string());
    assert_eq!(loading(&state).as_deref(), Some("State: best loading"));
    state.loading_search = Some("k".to_string());
    assert_eq!(loading(&state).as_deref(), Some("State: best/search loading same track"));
    state.loading_search = Some("l".to_string());
    assert_eq!(loading(&state).as_deref(), Some("State: best + search loading"));
    state.loading_best = None;
    assert_eq!(loading(&state).as_deref(), Some("State: search loading"));
}

#[test]
fn texts_of_what_happened() {
    let ok: Result<(), String> = Ok(());
    let err: Result<(), String> = Err("disk".to_string());
    assert_eq!(fetching_text(LyricsSource::Lrclib), "State: Loading LRCLIB lyrics...");
    assert_eq!(
        fetching_text(LyricsSource::SpotifyOfficial),
        "State: Loading Spotify official lyrics..."
    );
    assert_eq!(shown_text(&ok, true), "State: Loaded from cache");
    assert_eq!(shown_text(&ok, false), "State: Loaded lyrics");
    assert_eq!(shown_text(&err, true), "State: Cache save failed: disk");
    assert_eq!(listed_text(true), "State: Loaded candidate list from cache");
    assert_eq!(listed_text(false), "State: Search results ready");
    assert_eq!(chosen_text(&ok, -4), "State: Selected candidate -4");
    assert_eq!(chosen_text(&err, 4), "State: Cache save failed: disk");
    assert_eq!(candidate_meta(12, "213"), "id 12 • 213s");
    assert_eq!(player_failure_text("gone"), "State: DBus read failed: gone");
    assert_eq!(settings_failure_text("full"), "State: settings save failed: full");
    assert_eq!(manual_scroll_text("40"), "Timing: manual scroll at 40");
}

#[test]
fn window_is_near_its_place() {
    let target = at(80, 80, 720, 560);
    assert!(geometry_matches(&at(88, 72, 736, 544), &target));
    assert!(!geometry_matches(&at(89, 80, 720, 560), &target));
    assert!(!geometry_matches(&at(80, 71, 720, 560), &target));
    assert!(!geometry_matches(&at(80, 80, 737, 560), &target));
    assert!(!geometry_matches(&at(80, 80, 720, 543), &target));
}

#[test]
fn places_that_cannot_be_compared() {
    assert!(!geometry_fits(&at(i32::MIN, 0, 0, 0), &at(0, 0, 0, 0)));
    assert!(geometry_fits(&at(100, i32::MIN, 0, 0), &at(0, 0, 0, 0)));
    assert!(!geometry_fits(&at(8, i32::MIN, 0, 0), &at(0, 0, 0, 0)));
    assert!(!geometry_fits(&at(0, 0, i32::MAX, 0), &at(0, 0, -1, 0)));
    assert!(geometry_fits(&at(0, 0, 17, i32::MAX), &at(0, 0, 0, -1)));
    assert!(!geometry_fits(&at(0, 0, 16, i32::MAX), &at(0, 0, 0, -1)));
}

#[test]
fn restoring_ends() {
    let target = at(80, 80, 720, 560);
    let mut restore = GeometryRestore::new();
    assert!(restore.schedule());
    for n in 1..=5 {
        assert_eq!(restore.record(&target, Attempt::Failed), AttemptStep::Retry);
        assert_eq!(restore.attempts, n);
    }
    assert_eq!(restore.record(&target, Attempt::Failed), AttemptStep::GiveUp);
    let far = at(0, 0, 720, 560);
    assert_eq!(restore.record(&target, Attempt::Placed(far)), AttemptStep::GiveUp);
    assert_eq!(restore.last, Some(far));
    assert!(restore.schedule());
    assert_eq!(restore.attempts, 0);
    assert_eq!(restore.record(&target, Attempt::Skipped), AttemptStep::GiveUp);
    assert_eq!(restore.attempts, 0);
    assert_eq!(restore.record(&target, Attempt::Placed(target)), AttemptStep::Done);
    assert!(restore.applied);
    assert!(!restore.schedule());
}

#[test]
fn place_that_is_saved() {
    let mut restore = GeometryRestore::new();
    assert_eq!(restore.place_to_save(None), None);
    restore.remember(at(1, 2, 3, 4));
    assert_eq!(restore.place_to_save(None), Some(at(1, 2, 3, 4)));
    assert_eq!(restore.place_to_save(Some(at(5, 6, 7, 8))), Some(at(5, 6, 7, 8)));
}

#[test]
fn sizes_for_the_window_system() {
    for n in [0i32, 720, i32::MAX, -1, i32::MIN] {
        assert_eq!(to_unsigned(n), n as u32);
    }
}

#[test]
fn staying_on_top() {
    let on = topmost_request(true, 11, 12);
    assert_eq!(on.state, vec![11, 12]);
    assert_eq!(on.message, [1, 11, 12, 1, 0]);
    let off = topmost_request(false, 11, 12);
    assert!(off.state.is_empty());
    assert_eq!(off.message, [0, 11, 12, 1, 0]);
}

#[test]
fn restored_place_is_left_alone() {
    let target = at(80, 80, 720, 560);
    let mut restore = GeometryRestore::new();
    assert!(restore.pending());
    assert_eq!(restore.record(&target, Attempt::Failed), AttemptStep::Retry);
    assert!(restore.pending());
    assert_eq!(restore.record(&target, Attempt::Placed(target)), AttemptStep::Done);
    assert!(!restore.pending());
    let before = restore;
    for attempt in [Attempt::Failed, Attempt::Skipped, Attempt::Placed(at(i32::MIN, 0, 0, 0))] {
        assert_eq!(restore.record(&target, attempt), AttemptStep::GiveUp);
        assert_eq!(restore, before);
    }
}
