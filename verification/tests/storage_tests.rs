//! Settings and kept lyrics.
use spotify_lyrics::config::{AppConfig, SettingsPanel};
use spotify_lyrics::spotify::TrackInfo;
use spotify_lyrics::storage::{
    cache_row, migrate_settings_schema, settings_from_row, settings_to_row, to_signed,
    AppSettings, LyricsSource, SettingsRow, DEFAULT_OPACITY,
};

fn row() -> SettingsRow {
    SettingsRow {
        topmost: 0,
        auto_line_count: 2,
        max_lines: 0x1_0000_0007,
        background_opacity: 0.5f64.to_bits(),
        timing_offset_ms: -250,
        char_follow: 1,
        lyrics_source: "spotify_official".to_string(),
        sp_dc: "cookie".to_string(),
        window_width: 0x8000_0000,
        window_height: -1,
        window_x: i64::MIN,
        window_y: i64::MAX,
    }
}

#[test]
fn names_of_sources() {
    assert_eq!(LyricsSource::Lrclib.as_str(), "lrclib");
    assert_eq!(LyricsSource::SpotifyOfficial.as_str(), "spotify_official");
    for source in [LyricsSource::Lrclib, LyricsSource::SpotifyOfficial] {
        assert_eq!(LyricsSource::from_db(source.as_str()), source);
    }
    assert_eq!(LyricsSource::from_db(""), LyricsSource::Lrclib);
    assert_eq!(LyricsSource::from_db("Spotify_Official"), LyricsSource::Lrclib);
    assert_eq!(LyricsSource::default(), LyricsSource::Lrclib);
}

#[test]
fn default_settings() {
    assert_eq!(f64::from_bits(DEFAULT_OPACITY), 0.94);
    let s = settings_from_row(None);
    assert!(s.topmost);
    assert!(s.auto_line_count);
    assert_eq!(s.max_lines, 18);
    assert_eq!(f64::from_bits(s.background_opacity), 0.94);
    assert_eq!(s.timing_offset_ms, 0);
    assert!(!s.char_follow);
    assert_eq!(s.lyrics_source, LyricsSource::Lrclib);
    assert_eq!(s.sp_dc, "");
    assert_eq!((s.window_width, s.window_height), (720, 560));
    assert_eq!((s.window_x, s.window_y), (80, 80));
    assert_eq!(format!("{s:?}"), format!("{:?}", AppSettings::default()));
}

#[test]
fn saved_settings() {
    let s = settings_from_row(Some(row()));
    assert!(!s.topmost);
    assert!(s.auto_line_count);
    assert_eq!(s.max_lines, 0x1_0000_0007i64 as i32);
    assert_eq!(f64::from_bits(s.background_opacity), 0.5);
    assert_eq!(s.timing_offset_ms, -250);
    assert!(s.char_follow);
    assert_eq!(s.lyrics_source, LyricsSource::SpotifyOfficial);
    assert_eq!(s.sp_dc, "cookie");
    assert_eq!(s.window_width, 0x8000_0000i64 as i32);
    assert_eq!(s.window_height, -1);
    assert_eq!(s.window_x, i64::MIN as i32);
    assert_eq!(s.window_y, i64::MAX as i32);
}

#[test]
fn settings_read_back() {
    let mut s = AppSettings::default();
    s.topmost = false;
    s.timing_offset_ms = i32::MIN;
    s.window_x = -5;
    s.lyrics_source = LyricsSource::SpotifyOfficial;
    s.sp_dc = "x".to_string();
    let saved = settings_to_row(&s);
    assert_eq!(saved.topmost, 0);
    assert_eq!(saved.auto_line_count, 1);
    assert_eq!(saved.timing_offset_ms, i32::MIN as i64);
    assert_eq!(saved.lyrics_source, "spotify_official");
    assert_eq!(format!("{:?}", settings_from_row(Some(saved))), format!("{s:?}"));
    assert_eq!(format!("{:?}", s.clone()), format!("{s:?}"));
}

#[test]
fn settings_and_configuration_are_the_same() {
    let s = settings_from_row(Some(row()));
    let text = format!("{s:?}");
    let config = AppConfig::from(s);
    assert_eq!(config.max_lines, 7);
    assert_eq!(config.sp_dc, "cookie");
    assert_eq!(format!("{:?}", AppSettings::from(config.clone())), text);
    assert_eq!(format!("{:?}", config.clone()), format!("{config:?}"));
    let default = AppSettings::from(AppConfig::default());
    assert_eq!(format!("{default:?}"), format!("{:?}", AppSettings::default()));
}

#[test]
fn columns_of_kept_lyrics() {
    let track = TrackInfo {
        track_id: None,
        spotify_url: None,
        artist: "A".to_string(),
        title: "T".to_string(),
        album: "L".to_string(),
        duration_ms: u64::MAX,
        position_ms: 0,
        playback_status: String::new(),
    };
    let r = cache_row("key", &track, Some(4));
    assert_eq!(r.track_key, "key");
    assert_eq!((r.artist.as_str(), r.title.as_str(), r.album.as_str()), ("A", "T", "L"));
    assert_eq!(r.duration_ms, -1);
    assert_eq!(r.selected_candidate_id, Some(4));
    for n in [0u64, 1, i64::MAX as u64, i64::MAX as u64 + 1, u64::MAX] {
        assert_eq!(to_signed(n), n as i64);
    }
}

#[test]
fn tables_are_brought_up_to_date() {
    let names = |list: &[&str]| -> Vec<String> { list.iter().map(|s| s.to_string()).collect() };
    assert!(migrate_settings_schema(&Vec::new()).is_empty());
    let old = names(&["id", "topmost", "window_x", "sp_dc", "max_lines"]);
    assert_eq!(
        migrate_settings_schema(&old),
        vec![
            "ALTER TABLE app_settings ADD COLUMN auto_line_count INTEGER NOT NULL DEFAULT 1",
            "ALTER TABLE app_settings ADD COLUMN lyrics_source TEXT NOT NULL DEFAULT 'lrclib'",
            "ALTER TABLE app_settings ADD COLUMN window_width INTEGER NOT NULL DEFAULT 720",
            "ALTER TABLE app_settings ADD COLUMN window_height INTEGER NOT NULL DEFAULT 560",
            "ALTER TABLE app_settings ADD COLUMN window_y INTEGER NOT NULL DEFAULT 80",
        ]
    );
    assert_eq!(
        migrate_settings_schema(&names(&["id"])),
        vec![
            "ALTER TABLE app_settings ADD COLUMN auto_line_count INTEGER NOT NULL DEFAULT 1",
            "ALTER TABLE app_settings ADD COLUMN max_lines INTEGER NOT NULL DEFAULT 18",
            "ALTER TABLE app_settings ADD COLUMN lyrics_source TEXT NOT NULL DEFAULT 'lrclib'",
            "ALTER TABLE app_settings ADD COLUMN sp_dc TEXT NOT NULL DEFAULT ''",
            "ALTER TABLE app_settings ADD COLUMN window_width INTEGER NOT NULL DEFAULT 720",
            "ALTER TABLE app_settings ADD COLUMN window_height INTEGER NOT NULL DEFAULT 560",
            "ALTER TABLE app_settings ADD COLUMN window_x INTEGER NOT NULL DEFAULT 80",
            "ALTER TABLE app_settings ADD COLUMN window_y INTEGER NOT NULL DEFAULT 80",
        ]
    );
    let full = names(&[
        "auto_line_count", "max_lines", "lyrics_source", "sp_dc", "window_width",
        "window_height", "window_x", "window_y",
    ]);
    assert!(migrate_settings_schema(&full).is_empty());
}

#[test]
fn migrations_are_accepted_by_the_database() {
    let conn = rusqlite::Connection::open_in_memory().expect("a database");
    conn.execute("CREATE TABLE app_settings (id INTEGER PRIMARY KEY, topmost INTEGER NOT NULL)", [])
        .expect("a table");
    for statement in migrate_settings_schema(&vec!["id".to_string(), "topmost".to_string()]) {
        conn.execute(statement, []).expect("a column");
    }
    conn.execute("INSERT INTO app_settings (id, topmost) VALUES (1, 1)", []).expect("a row");
    let (lines, source): (i64, String) = conn
        .query_row("SELECT max_lines, lyrics_source FROM app_settings", [], |row| {
            Ok((row.get(0)?, row.get(1)?))
        })
        .expect("the defaults");
    assert_eq!(lines, 18);
    assert_eq!(LyricsSource::from_db(&source), LyricsSource::Lrclib);
}

#[test]
fn controls_change_settings() {
    let mut panel = SettingsPanel::new(AppConfig::default());
    assert!(panel.set_topmost(false));
    assert!(panel.set_background_opacity(0.3f64.to_bits()));
    assert!(panel.set_timing_offset(-100));
    assert!(panel.set_char_follow(true));
    assert!(!panel.config.topmost);
    assert_eq!(f64::from_bits(panel.config.background_opacity), 0.3);
    assert_eq!(panel.config.timing_offset_ms, -100);
    assert!(panel.config.char_follow);
    assert!(!panel.close());
}

#[test]
fn source_settings_make_lyrics_load_again() {
    let mut panel = SettingsPanel::new(AppConfig::default());
    assert!(panel.set_sp_dc("  abc "));
    assert_eq!(panel.config.sp_dc, "abc");
    assert!(!panel.dirty);
    assert!(!panel.set_lyrics_source(None));
    assert!(!panel.dirty);
    assert!(panel.set_lyrics_source(Some("spotify_official")));
    assert_eq!(panel.config.lyrics_source, LyricsSource::SpotifyOfficial);
    assert!(panel.close());
    assert!(!panel.close());
    assert!(panel.set_sp_dc("d"));
    assert!(panel.close());
}

#[test]
fn controls_set_by_the_program_change_nothing() {
    let mut panel = SettingsPanel::new(AppConfig::default());
    panel.suppressed = true;
    let before = format!("{panel:?}");
    assert!(!panel.set_topmost(false));
    assert!(!panel.set_background_opacity(0));
    assert!(!panel.set_timing_offset(5));
    assert!(!panel.set_char_follow(true));
    assert!(!panel.set_lyrics_source(Some("spotify_official")));
    assert!(!panel.set_sp_dc("x"));
    assert_eq!(format!("{panel:?}"), before);
}

#[test]
fn window_is_kept_no_smaller_than_it_can_be() {
    let mut panel = SettingsPanel::new(AppConfig::default());
    panel.set_geometry(-3, 4, 100, 900);
    assert_eq!((panel.config.window_x, panel.config.window_y), (-3, 4));
    assert_eq!((panel.config.window_width, panel.config.window_height), (320, 900));
    panel.set_geometry(0, 0, 321, -1);
    assert_eq!((panel.config.window_width, panel.config.window_height), (321, 240));
}
