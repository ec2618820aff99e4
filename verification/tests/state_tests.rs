//! What is shown and what is being fetched.
use spotify_lyrics::fetching::{
    fetch_plan, needs_legacy_lookup, primary_message, search_message, settle_lookup, ChangeStep, FetchKind,
    FetchPlan, Lookup, LookupStep, Received,
};
use spotify_lyrics::lyrics::{CandidateDuration, LyricsCandidate};
use spotify_lyrics::spotify::{SpotifySnapshot, TrackInfo};
use spotify_lyrics::state::{
    active_lyrics_key, effective_position_ms, key_under_source, pick_selected_candidate, position_can_move,
    selection_fits, RuntimeState, SnapshotStep,
};
use spotify_lyrics::storage::{CachedLyrics, LyricsSource};

const LRC: LyricsSource = LyricsSource::Lrclib;
const OFFICIAL: LyricsSource = LyricsSource::SpotifyOfficial;

fn track(id: &str) -> TrackInfo {
    TrackInfo {
        track_id: Some(format!("spotify:track:{id}")),
        spotify_url: None,
        artist: "Artist".to_string(),
        title: "Title".to_string(),
        album: "Album".to_string(),
        duration_ms: 60_000,
        position_ms: 0,
        playback_status: "Playing".to_string(),
    }
}

fn candidate(id: i64, synced: &str) -> LyricsCandidate {
    LyricsCandidate {
        id,
        name: String::new(),
        track_name: String::new(),
        artist_name: String::new(),
        album_name: String::new(),
        duration: CandidateDuration::Track(60_000),
        instrumental: false,
        plain_lyrics: String::new(),
        synced_lyrics: synced.to_string(),
        lyrics_file: None,
    }
}

fn playing(id: &str) -> SpotifySnapshot {
    SpotifySnapshot { track: Some(track(id)) }
}

fn shown_text(state: &RuntimeState) -> Option<String> {
    state
        .selected_lyrics
        .as_ref()
        .map(|l| l.lines.iter().map(|line| line.text.clone()).collect::<Vec<_>>().join("/"))
}

#[test]
fn state_at_the_start() {
    let state = RuntimeState::new();
    assert!(state.current_track_key.is_none());
    assert!(state.current_track.is_none());
    assert!(state.current_candidates.is_empty());
    assert_eq!(state.fetch_generation, 0);
}

#[test]
fn keys_of_the_two_sources() {
    assert_eq!(active_lyrics_key(LRC, &track("a")), "lrclib:spotify:a");
    assert_eq!(active_lyrics_key(OFFICIAL, &track("a")), "spotify_official:spotify:a");
    assert_eq!(key_under_source(LRC, "a|b|3"), "lrclib:a|b|3");
}

#[test]
fn snapshots_tell_tracks_apart() {
    let mut state = RuntimeState::new();
    assert_eq!(state.handle_snapshot(LRC, playing("a")), SnapshotStep::Changed);
    assert_eq!(state.fetch_generation, 1);
    let mut later = track("a");
    later.position_ms = 5_000;
    assert_eq!(
        state.handle_snapshot(LRC, SpotifySnapshot { track: Some(later) }),
        SnapshotStep::Same
    );
    assert_eq!(state.fetch_generation, 1);
    assert_eq!(state.current_track.as_ref().map(|t| t.position_ms), Some(5_000));
    assert_eq!(state.handle_snapshot(LRC, playing("b")), SnapshotStep::Changed);
    assert_eq!(state.fetch_generation, 2);
    assert_eq!(state.handle_snapshot(OFFICIAL, playing("b")), SnapshotStep::Changed);
    assert_eq!(
        state.current_track_key.as_deref(),
        Some("spotify_official:spotify:b")
    );
    assert_eq!(
        state.handle_snapshot(OFFICIAL, SpotifySnapshot { track: None }),
        SnapshotStep::Stopped
    );
    assert!(state.current_track.is_none());
    assert_eq!(state.fetch_generation, 3);
}

#[test]
fn seeing_a_track_again_keeps_its_lyrics() {
    let mut state = RuntimeState::new();
    state.handle_snapshot(LRC, playing("a"));
    state.apply_candidates(
        LRC,
        track("a"),
        String::new(),
        vec![candidate(1, "[00:01.00]x\n[00:02.00]y")],
        None,
        true,
    );
    state.current_line_index = 1;
    state.handle_snapshot(LRC, playing("a"));
    assert_eq!(shown_text(&state).as_deref(), Some("x/y"));
    assert_eq!(state.current_line_index, 1);
}

#[test]
fn wanted_candidate_is_picked() {
    let list = vec![candidate(5, ""), candidate(6, ""), candidate(6, ""), candidate(7, "")];
    assert_eq!(pick_selected_candidate(&list, Some(7)), Some(3));
    assert_eq!(pick_selected_candidate(&list, Some(6)), Some(1));
    assert_eq!(pick_selected_candidate(&list, Some(1)), Some(0));
    assert_eq!(pick_selected_candidate(&list, None), Some(0));
    assert_eq!(pick_selected_candidate(&Vec::new(), Some(7)), None);
}

#[test]
fn only_the_picked_candidate_has_to_fit() {
    let list = vec![candidate(1, "[00:01.12é]x"), candidate(2, "[00:01.00]x")];
    assert!(!selection_fits(&list, None));
    assert!(selection_fits(&list, Some(2)));
    assert!(selection_fits(&Vec::new(), None));
}

#[test]
fn candidates_are_shown_or_offered() {
    let mut state = RuntimeState::new();
    state.handle_snapshot(LRC, playing("a"));
    state.begin_primary_fetch("lrclib:spotify:a");
    state.begin_search_fetch("lrclib:spotify:a");
    state.current_line_index = 3;
    state.apply_candidates(
        LRC,
        track("a"),
        "another key".to_string(),
        vec![candidate(1, "[00:01.00]one"), candidate(2, "[00:01.00]two")],
        Some(2),
        true,
    );
    assert_eq!(state.selected_candidate_id, Some(2));
    assert_eq!(shown_text(&state).as_deref(), Some("two"));
    assert_eq!(state.current_line_index, 0);
    assert_eq!(state.current_track_key.as_deref(), Some("lrclib:spotify:a"));
    assert_eq!(state.loading_best, None);
    assert_eq!(state.loading_search.as_deref(), Some("lrclib:spotify:a"));

    state.apply_candidates(
        LRC,
        track("a"),
        "lrclib:spotify:a".to_string(),
        vec![candidate(3, "[00:01.00]three")],
        None,
        false,
    );
    assert_eq!(state.selected_candidate_id, Some(2));
    assert_eq!(shown_text(&state).as_deref(), Some("two"));
    assert_eq!(state.current_candidates.len(), 1);
    assert_eq!(state.loading_search, None);

    state.apply_candidates(LRC, track("a"), String::new(), Vec::new(), None, true);
    assert_eq!(state.selected_candidate_id, None);
    assert!(state.selected_lyrics.is_none());
}

#[test]
fn kept_lyrics_come_back() {
    let list = || vec![candidate(1, "[00:01.00]one"), candidate(2, "[00:01.00]two")];
    let mut state = RuntimeState::new();
    state.handle_snapshot(LRC, playing("a"));
    let kept =
        state.show_candidates(track("a"), "k".to_string(), list(), Some(2));
    let first = shown_text(&state);
    assert!(state.reload_current_track(LRC));
    assert!(state.selected_lyrics.is_none());
    let again = state.show_candidates(track("a"), "k".to_string(), list(), kept);
    assert_eq!(again, kept);
    assert_eq!(shown_text(&state), first);
}

#[test]
fn chosen_candidate_is_shown_and_comes_back() {
    let mut state = RuntimeState::new();
    state.handle_snapshot(LRC, playing("a"));
    state.list_candidates(
        track("a"),
        "lrclib:spotify:a".to_string(),
        vec![candidate(1, "[00:01.00]one"), candidate(2, "[00:01.00]two")],
    );
    let generation = state.fetch_generation;
    assert_eq!(state.select_candidate(LRC, 2), None);
    assert_eq!(state.fetch_generation, generation);
    assert_eq!(state.select_candidate(LRC, 1), Some(2));
    assert_eq!(state.fetch_generation, generation + 1);
    assert_eq!(shown_text(&state).as_deref(), Some("two"));
    assert_eq!(state.current_track_key.as_deref(), Some("lrclib:spotify:a"));
    let wanted = state.selected_candidate_id;
    let list = vec![candidate(1, "[00:01.00]one"), candidate(2, "[00:01.00]two")];
    state.apply_candidates(LRC, track("a"), String::new(), list, wanted, true);
    assert_eq!(shown_text(&state).as_deref(), Some("two"));
}

#[test]
fn choosing_without_a_key_keeps_the_key() {
    let mut state = RuntimeState::new();
    state.current_candidates = vec![candidate(9, "")];
    assert_eq!(state.choose_candidate(0, None), Some(9));
    assert_eq!(state.current_track_key, None);
    assert_eq!(state.choose_candidate(0, Some("k".to_string())), Some(9));
    assert_eq!(state.current_track_key.as_deref(), Some("k"));
}

#[test]
fn last_round_of_fetches_stays() {
    let mut state = RuntimeState::new();
    state.fetch_generation = u64::MAX;
    state.handle_snapshot(LRC, playing("a"));
    assert_eq!(state.fetch_generation, u64::MAX);
}

#[test]
fn nothing_to_reload() {
    let mut state = RuntimeState::new();
    assert!(!state.reload_current_track(LRC));
    assert_eq!(state.fetch_generation, 0);
}

#[test]
fn positions_are_moved() {
    assert_eq!(effective_position_ms(1_000, 250), 1_250);
    assert_eq!(effective_position_ms(1_000, -250), 750);
    assert_eq!(effective_position_ms(100, -250), 0);
    assert_eq!(effective_position_ms(u64::MAX, 0), 0);
    assert!(position_can_move(u64::MAX / 1_000, i32::MAX));
    assert!(position_can_move(u64::MAX / 1_000, i32::MIN));
    assert!(!position_can_move(i64::MAX as u64, 1));
    assert!(!position_can_move(i64::MAX as u64 + 1, -1));
    assert!(position_can_move(i64::MAX as u64, 0));
}

#[test]
fn current_line_follows_the_track() {
    let mut state = RuntimeState::new();
    state.handle_snapshot(LRC, playing("a"));
    let mut t = track("a");
    assert!(!state.update_current_line(&t, 0));
    state.apply_candidates(
        LRC,
        track("a"),
        String::new(),
        vec![candidate(1, "[00:01.00]a\n[00:02.00]b\n[00:02.00]c\n[00:04.00]d")],
        None,
        true,
    );
    let mut at = |state: &mut RuntimeState, position: u64, offset: i32| {
        t.position_ms = position;
        let moved = state.update_current_line(&t, offset);
        (state.current_line_index, moved)
    };
    assert_eq!(at(&mut state, 0, 0), (0, false));
    assert_eq!(at(&mut state, 1_999, 0), (0, false));
    assert_eq!(at(&mut state, 2_000, 0), (2, true));
    assert_eq!(at(&mut state, 3_999, 0), (2, false));
    assert_eq!(at(&mut state, 3_999, 1), (3, true));
    assert_eq!(at(&mut state, 500, 0), (3, false));
    assert_eq!(at(&mut state, 1_000, 0), (0, true));
}

#[test]
fn stopped_track_is_not_followed() {
    let mut state = RuntimeState::new();
    state.apply_candidates(
        LRC,
        track("a"),
        String::new(),
        vec![candidate(1, "[00:00.00]a\n[00:02.00]b")],
        None,
        true,
    );
    let mut t = track("a");
    t.position_ms = 3_000;
    t.playback_status = "Stopped".to_string();
    assert!(!state.update_current_line(&t, 0));
    t.playback_status = "pAUSED".to_string();
    assert!(state.update_current_line(&t, 0));
    assert_eq!(state.current_line_index, 1);
}

#[test]
fn scrolling_by_hand() {
    let mut state = RuntimeState::new();
    state.mark_manual_scroll();
    assert!(state.user_scrolled);
    state.handle_snapshot(LRC, playing("a"));
    assert!(state.user_scrolled);
    state.resume_following();
    assert!(!state.user_scrolled);
}

fn kept(key: &str) -> CachedLyrics {
    CachedLyrics {
        track_key: key.to_string(),
        selected_candidate_id: Some(1),
        candidates: vec![candidate(1, "")],
    }
}

fn settle(primary: Lookup, legacy: Option<Lookup>) -> String {
    match settle_lookup(primary, legacy) {
        LookupStep::Apply(cached) => format!("apply {}", cached.track_key),
        LookupStep::Fetch => "fetch".to_string(),
        LookupStep::ReportAndFetch(text) => text,
    }
}

#[test]
fn lookups_are_settled() {
    let err = |s: &str| -> Lookup { Err(s.to_string()) };
    assert_eq!(settle(Ok(Some(kept("k"))), None), "apply k");
    assert_eq!(settle(Ok(None), None), "fetch");
    assert_eq!(settle(Ok(None), Some(Ok(Some(kept("old"))))), "apply old");
    assert_eq!(settle(Ok(None), Some(Ok(None))), "fetch");
    assert_eq!(settle(Ok(None), Some(err("b"))), "State: Cache read failed: b");
    assert_eq!(settle(err("a"), None), "State: Cache read failed: a");
    assert_eq!(settle(err("a"), Some(Ok(Some(kept("old"))))), "apply old");
    assert_eq!(settle(err("a"), Some(Ok(None))), "fetch");
    assert_eq!(settle(err("a"), Some(err("b"))), "State: Cache read failed: a");
}

#[test]
fn only_lrclib_lyrics_have_plain_keys() {
    let none: Lookup = Ok(None);
    let error: Lookup = Err("e".to_string());
    let found: Lookup = Ok(Some(kept("k")));
    assert!(needs_legacy_lookup(LRC, &none));
    assert!(needs_legacy_lookup(LRC, &error));
    assert!(!needs_legacy_lookup(LRC, &found));
    assert!(!needs_legacy_lookup(OFFICIAL, &none));
    assert!(!needs_legacy_lookup(OFFICIAL, &error));
}

#[test]
fn one_fetch_at_a_time() {
    let mut state = RuntimeState::new();
    state.fetch_generation = 4;
    assert_eq!(state.begin_primary_fetch("k"), Some(4));
    assert_eq!(state.begin_primary_fetch("k"), None);
    assert_eq!(state.begin_primary_fetch("l"), Some(4));
    assert_eq!(state.begin_search_fetch("k"), Some(4));
    assert_eq!(state.begin_search_fetch("k"), None);
}

#[test]
fn fetched_lyrics_are_shown() {
    let mut state = RuntimeState::new();
    state.handle_snapshot(LRC, playing("a"));
    let key = active_lyrics_key(LRC, &track("a"));
    let generation = state.begin_primary_fetch(&key).expect("a round");
    let message =
        primary_message(generation, key, track("a"), LRC, Ok(candidate(8, "[00:00.00]la")));
    match state.receive(LRC, message) {
        Received::Shown => {}
        other => panic!("{other:?}"),
    }
    assert_eq!(state.selected_candidate_id, Some(8));
    assert_eq!(shown_text(&state).as_deref(), Some("la"));
    assert_eq!(state.loading_best, None);
}

#[test]
fn stale_messages_change_nothing() {
    let mut state = RuntimeState::new();
    state.handle_snapshot(LRC, playing("a"));
    let key = active_lyrics_key(LRC, &track("a"));
    let generation = state.begin_primary_fetch(&key).expect("a round");
    state.handle_snapshot(LRC, playing("b"));
    state.handle_snapshot(LRC, playing("a"));
    let before = format!("{state:?}");
    let messages = vec![
        primary_message(generation, key.clone(), track("a"), LRC, Ok(candidate(8, "[00:00.00]la"))),
        primary_message(generation, key.clone(), track("a"), LRC, Err("e".to_string())),
        search_message(generation, key.clone(), Ok(vec![candidate(1, "")])),
        search_message(generation + 1, "other".to_string(), Err("e".to_string())),
    ];
    for message in messages {
        match state.receive(LRC, message) {
            Received::Ignored => {}
            other => panic!("{other:?}"),
        }
        assert_eq!(format!("{state:?}"), before);
    }
}

#[test]
fn messages_after_the_player_stopped_are_stale() {
    let mut state = RuntimeState::new();
    state.handle_snapshot(LRC, playing("a"));
    let generation = state.fetch_generation;
    state.clear_track();
    let key = active_lyrics_key(LRC, &track("a"));
    match state.receive(LRC, search_message(generation, key, Ok(vec![candidate(1, "")]))) {
        Received::Ignored => {}
        other => panic!("{other:?}"),
    }
}

#[test]
fn search_results_are_only_offered() {
    let mut state = RuntimeState::new();
    state.handle_snapshot(LRC, playing("a"));
    let key = active_lyrics_key(LRC, &track("a"));
    state.apply_candidates(
        LRC,
        track("a"),
        String::new(),
        vec![candidate(1, "[00:01.00]one")],
        None,
        true,
    );
    let generation = state.begin_search_fetch(&key).expect("a round");
    let found = vec![candidate(2, "[00:01.12é]x"), candidate(3, "")];
    match state.receive(LRC, search_message(generation, key, Ok(found))) {
        Received::Listed => {}
        other => panic!("{other:?}"),
    }
    assert_eq!(state.current_candidates.len(), 2);
    assert_eq!(state.selected_candidate_id, Some(1));
    assert_eq!(shown_text(&state).as_deref(), Some("one"));
    assert_eq!(state.loading_search, None);
}

#[test]
fn failed_fetches_are_told() {
    let mut state = RuntimeState::new();
    state.handle_snapshot(OFFICIAL, playing("a"));
    let key = active_lyrics_key(OFFICIAL, &track("a"));
    let generation = state.begin_primary_fetch(&key).expect("a round");
    state.begin_search_fetch(&key);
    let failed =
        primary_message(generation, key.clone(), track("a"), OFFICIAL, Err("why".to_string()));
    match state.receive(OFFICIAL, failed) {
        Received::Failed(text) => {
            assert_eq!(text, "State: spotify_official lyrics fetch failed: why")
        }
        other => panic!("{other:?}"),
    }
    assert_eq!(state.loading_best, None);
    assert!(state.loading_search.is_some());
    match state.receive(OFFICIAL, search_message(generation, key, Err("no".to_string()))) {
        Received::Failed(text) => assert_eq!(text, "State: search lyrics fetch failed: no"),
        other => panic!("{other:?}"),
    }
    assert_eq!(state.loading_search, None);
    assert_eq!(FetchKind::Primary(LRC).name(), "lrclib");
}

#[test]
fn opening_the_change_of_lyrics() {
    let mut state = RuntimeState::new();
    assert!(matches!(state.open_change(LRC), ChangeStep::Nothing));
    state.handle_snapshot(LRC, playing("a"));
    assert!(matches!(state.open_change(OFFICIAL), ChangeStep::ShowRows));
    match state.open_change(LRC) {
        ChangeStep::Search(key) => {
            assert_eq!(key, "lrclib:spotify:a");
            state.begin_search_fetch(&key);
        }
        other => panic!("{other:?}"),
    }
    assert!(matches!(state.open_change(LRC), ChangeStep::ShowRows));
    state.loading_search = None;
    state.current_candidates = vec![candidate(1, ""), candidate(2, "")];
    assert!(matches!(state.open_change(LRC), ChangeStep::ShowRows));
    assert!(matches!(state.change_step_for(LRC, None), ChangeStep::Nothing));
}

#[test]
fn what_is_kept_of_shown_lyrics() {
    let mut state = RuntimeState::new();
    assert!(state.lyrics_to_keep().is_none());
    state.apply_candidates(
        OFFICIAL,
        track("a"),
        "another key".to_string(),
        vec![candidate(1, ""), candidate(2, "")],
        Some(2),
        true,
    );
    let kept = state.lyrics_to_keep().expect("lyrics are shown");
    assert_eq!(kept.track_key, "spotify_official:spotify:a");
    assert_eq!(kept.track.track_id.as_deref(), Some("spotify:track:a"));
    assert_eq!(kept.selected_candidate_id, Some(2));
    assert_eq!(kept.candidates.len(), 2);
    assert_eq!(kept.candidates[1].id, 2);
}

#[test]
fn what_is_kept_of_a_chosen_candidate() {
    let mut state = RuntimeState::new();
    state.handle_snapshot(LRC, playing("a"));
    state.list_candidates(
        track("a"),
        "lrclib:spotify:a".to_string(),
        vec![candidate(1, ""), candidate(2, "")],
    );
    assert_eq!(state.lyrics_to_keep().and_then(|k| k.selected_candidate_id), None);
    assert_eq!(state.select_candidate(LRC, 1), Some(2));
    let kept = state.lyrics_to_keep().expect("a track is current");
    assert_eq!(kept.track_key, "lrclib:spotify:a");
    assert_eq!(kept.selected_candidate_id, Some(2));
    state.clear_track();
    assert!(state.lyrics_to_keep().is_none());
}

#[test]
fn lyrics_come_from_the_source_that_was_asked_for() {
    let mut unknown = track("a");
    unknown.track_id = None;
    for sp_dc in ["", " x "] {
        for t in [&track("a"), &unknown] {
            assert!(matches!(fetch_plan(LRC, t, sp_dc), Ok(FetchPlan::Lrclib)));
        }
    }
    match fetch_plan(OFFICIAL, &track("a"), " x ") {
        Ok(FetchPlan::Official(request)) => {
            assert_eq!(request.track_id, "a");
            assert_eq!(request.cookie, "sp_dc=x");
        }
        other => panic!("{other:?}"),
    }
    let message = |t: &TrackInfo, sp_dc: &str| match fetch_plan(OFFICIAL, t, sp_dc) {
        Err(e) => e.message(),
        Ok(plan) => panic!("{plan:?}"),
    };
    assert_eq!(message(&track("a"), " "), "missing Spotify sp_dc cookie");
    assert_eq!(message(&unknown, "x"), "missing Spotify track id");
}
