//! What the player reports, and the keys of tracks.
use spotify_lyrics::spotify::{
    collapse_words, compose_key, extract_spotify_track_id, first_given, normalize,
    parse_number, property_request, read_fields, read_snapshot, snapshot_of, SnapshotError, SnapshotFields, TrackInfo,
};

const METADATA: &str = r#"method return time=1.5 sender=:1.1 -> destination=:1.2 serial=3 reply_serial=2
   variant       array [
         dict entry(
            string "mpris:trackid"
            variant                string "/com/spotify/track/4uLU6hMCjMI75M1A2tKUQC"
         )
         dict entry(
            string "mpris:length"
            variant                uint64 213573000
         )
         dict entry(
            string "xesam:album"
            variant                string "Whenever You Need Somebody"
         )
         dict entry(
            string "xesam:artist"
            variant                array [
                  string "Rick Astley"
                  string "Somebody Else"
               ]
         )
         dict entry(
            string "xesam:title"
            variant                string "Never Gonna Give You Up"
         )
         dict entry(
            string "xesam:url"
            variant                string "https://open.spotify.com/track/4uLU6hMCjMI75M1A2tKUQC"
         )
      ]
"#;

const STATUS: &str = "method return time=1.5 sender=:1.1\n   variant       string \"Playing\"\n";

const POSITION: &str = "method return time=1.5 sender=:1.1\n   variant       int64 61234567\n";

fn track() -> TrackInfo {
    TrackInfo {
        track_id: None,
        spotify_url: None,
        artist: "  The   Artist ".to_string(),
        title: "Á\u{3000}Title".to_string(),
        album: "Album".to_string(),
        duration_ms: 213_573,
        position_ms: 1_000,
        playback_status: "Playing".to_string(),
    }
}

#[test]
fn snapshot_of_a_playing_track() {
    let snapshot = match read_snapshot(METADATA, STATUS, POSITION) {
        Ok(snapshot) => snapshot,
        Err(e) => panic!("{e:?}"),
    };
    let t = snapshot.track.expect("a track plays");
    assert_eq!(t.track_id.as_deref(), Some("/com/spotify/track/4uLU6hMCjMI75M1A2tKUQC"));
    assert_eq!(
        t.spotify_url.as_deref(),
        Some("https://open.spotify.com/track/4uLU6hMCjMI75M1A2tKUQC")
    );
    assert_eq!(t.artist, "Rick Astley");
    assert_eq!(t.title, "Never Gonna Give You Up");
    assert_eq!(t.album, "Whenever You Need Somebody");
    assert_eq!(t.duration_ms, 213_573);
    assert_eq!(t.position_ms, 61_234);
    assert_eq!(t.playback_status, "Playing");
    assert_eq!(t.cache_key(), "spotify:4uLU6hMCjMI75M1A2tKUQC");
    assert_eq!(t.legacy_track_key(), "/com/spotify/track/4uLU6hMCjMI75M1A2tKUQC");
}

#[test]
fn snapshot_without_names_has_no_track() {
    match read_snapshot("variant array [ ]", STATUS, POSITION) {
        Ok(snapshot) => assert!(snapshot.track.is_none()),
        Err(e) => panic!("{e:?}"),
    }
}

#[test]
fn snapshot_without_status_is_an_error() {
    for status in ["", "variant string \"\"", "variant int64 5"] {
        match read_snapshot(METADATA, status, POSITION) {
            Err(e) => {
                assert_eq!(e, SnapshotError::NoPlaybackStatus);
                assert_eq!(e.message(), "failed to parse playback status");
            }
            Ok(_) => panic!("there is no status"),
        }
    }
}

#[test]
fn fields_that_are_missing_or_too_large() {
    let metadata = "string \"mpris:length\"\n variant uint64 99999999999999999999999";
    let fields = read_fields(metadata, STATUS, "variant int64 -5");
    assert_eq!(fields.duration_us, None);
    assert_eq!(fields.position_us, None);
    assert_eq!(fields.track_id, None);
    assert_eq!(fields.artist, None);
    assert_eq!(fields.playback_status.as_deref(), Some("Playing"));
}

#[test]
fn fields_become_a_track() {
    let fields = SnapshotFields {
        track_id: None,
        spotify_url: None,
        artist: None,
        title: Some("Only a title".to_string()),
        album: None,
        duration_us: Some(1_999),
        position_us: None,
        playback_status: Some("Paused".to_string()),
    };
    match snapshot_of(fields) {
        Ok(snapshot) => {
            let t = snapshot.track.expect("a title is enough");
            assert_eq!(t.artist, "");
            assert_eq!(t.duration_ms, 1);
            assert_eq!(t.position_ms, 0);
        }
        Err(e) => panic!("{e:?}"),
    }
}

#[test]
fn identifiers_of_spotify_tracks() {
    let id = |s: &str| extract_spotify_track_id(s);
    assert_eq!(id("spotify:track:abc123"), Some("abc123".to_string()));
    assert_eq!(id("x spotify:track:abc-def"), Some("abc".to_string()));
    assert_eq!(id("http://open.spotify.com/track/Q1?si=2"), Some("Q1".to_string()));
    assert_eq!(id("https://open.spotify.com/track/Q1"), Some("Q1".to_string()));
    assert_eq!(id("/com/spotify/track/Q2"), Some("Q2".to_string()));
    assert_eq!(id("/com/spotify/track/Q2?x"), None);
    assert_eq!(id("/com/spotify/ad/Q2"), None);
    assert_eq!(id(""), None);
}

#[test]
fn address_goes_before_player_identifier() {
    let mut t = track();
    t.track_id = Some("spotify:track:second".to_string());
    t.spotify_url = Some("https://open.spotify.com/track/first".to_string());
    assert_eq!(t.spotify_track_id(), Some("first".to_string()));
    t.spotify_url = Some("https://example.com/".to_string());
    assert_eq!(t.spotify_track_id(), Some("second".to_string()));
    t.track_id = None;
    assert_eq!(t.spotify_track_id(), None);
}

#[test]
fn keys_without_a_spotify_identifier() {
    let mut t = track();
    assert_eq!(t.cache_key(), "the artist|á title|213");
    assert_eq!(t.legacy_track_key(), t.cache_key());
    t.track_id = Some("/local/42".to_string());
    assert_eq!(t.cache_key(), "/local/42");
    assert_eq!(t.legacy_track_key(), "/local/42");
}

#[test]
fn key_stays_while_the_track_plays() {
    let t = track();
    let mut later = t.clone();
    later.position_ms = 99_000;
    later.playback_status = "Paused".to_string();
    later.album = "Another".to_string();
    assert_eq!(later.cache_key(), t.cache_key());
    assert_eq!(later.legacy_track_key(), t.legacy_track_key());
}

#[test]
fn one_spotify_track_has_one_key() {
    let mut a = track();
    a.spotify_url = Some("https://open.spotify.com/track/Q1".to_string());
    let mut b = track();
    b.track_id = Some("/com/spotify/track/Q1".to_string());
    b.title = "Renamed".to_string();
    assert_eq!(a.cache_key(), b.cache_key());
    b.track_id = Some("/com/spotify/track/Q2".to_string());
    assert_ne!(a.cache_key(), b.cache_key());
}

#[test]
fn names_are_normalised() {
    assert_eq!(normalize("  ÀB\u{3000}\u{3000}Cd\te "), "àb cd e");
    assert_eq!(normalize(""), "");
    assert_eq!(normalize(" x "), normalize("x"));
    assert_eq!(collapse_words("  A \n b"), "A b");
}

#[test]
fn normalising_is_as_in_std() {
    for s in ["  ΑΣ  Σ ", "İstanbul", "a\u{3000}b", "Mixed Case\u{a0}X", "歌 詞"] {
        let expected = s
            .trim()
            .to_lowercase()
            .replace('\u{3000}', " ")
            .split_whitespace()
            .collect::<Vec<_>>()
            .join(" ");
        assert_eq!(normalize(s), expected);
    }
}

#[test]
fn first_text_that_is_given() {
    let some = |s: &str| Some(s.to_string());
    assert_eq!(first_given(some("a"), some("b")), some("a"));
    assert_eq!(first_given(None, some("b")), some("b"));
    assert_eq!(first_given(None, None), None);
}

#[test]
fn composed_keys() {
    let some = |s: &str| Some(s.to_string());
    assert_eq!(compose_key(some("X"), &some("Y"), "a", "t", 1), "spotify:X");
    assert_eq!(compose_key(None, &some("Y"), "a", "t", 1), "Y");
    assert_eq!(compose_key(None, &None, "a", "t", 61_999), "a|t|61");
}

#[test]
fn request_for_a_property() {
    assert_eq!(
        property_request("Metadata"),
        vec![
            "--session",
            "--dest=org.mpris.MediaPlayer2.spotify",
            "--type=method_call",
            "--print-reply",
            "/org/mpris/MediaPlayer2",
            "org.freedesktop.DBus.Properties.Get",
            "string:org.mpris.MediaPlayer2.Player",
            "string:Metadata",
        ]
    );
}

#[test]
fn collapsing_again_changes_nothing() {
    for s in ["", "  a  b\n\nc ", "one", "\u{3000}歌\u{3000}\u{3000}詞"] {
        let once = collapse_words(s);
        assert_eq!(collapse_words(&once), once);
        assert_eq!(
            once.split_whitespace().collect::<Vec<_>>(),
            s.split_whitespace().collect::<Vec<_>>()
        );
    }
}

fn is_id(s: &str) -> bool {
    !s.is_empty() && s.chars().all(|c| c.is_ascii_alphanumeric())
}

fn behind(s: &str, prefixes: &[&str]) -> Option<String> {
    for (at, _) in s.char_indices() {
        for prefix in prefixes {
            if let Some(rest) = s[at..].strip_prefix(prefix) {
                let id: String = rest.chars().take_while(|c| c.is_ascii_alphanumeric()).collect();
                if !id.is_empty() {
                    return Some(id);
                }
            }
        }
    }
    None
}

fn at_the_end(s: &str) -> Option<String> {
    let (path, id) = s.rsplit_once('/')?;
    if is_id(id) && path.ends_with("/track") {
        Some(id.to_string())
    } else {
        None
    }
}

fn expected_id(s: &str) -> Option<String> {
    behind(s, &["spotify:track:"])
        .or_else(|| {
            behind(s, &["http://open.spotify.com/track/", "https://open.spotify.com/track/"])
        })
        .or_else(|| at_the_end(s))
}

#[test]
fn identifiers_stand_where_they_should() {
    let pieces = [
        "", "spotify:track:", "https://open.spotify.com/track/", "http://open.spotify.com/track/",
        "/track/", "track/", "/com/spotify", "https", "://open.spotify.com", "http:", "a1B", "Z9",
        "-", "é", "歌", "\n", " ", "?si=", "/", "Spotify:track:", "open_spotify.com/track/",
        "spotify:track", "٣", "K",
    ];
    for a in pieces {
        for b in pieces {
            for c in pieces {
                for d in pieces {
                    let text = format!("{a}{b}{c}{d}");
                    if a == b && c == d {
                        continue;
                    }
                    if !(a.len() > 6 || b.len() > 6 || c.len() > 6) {
                        continue;
                    }
                    if (a.len() * 31 + b.len() * 17 + c.len() * 7 + d.len()) % 97 != 0 {
                        continue;
                    }
                    let found = extract_spotify_track_id(&text);
                    assert_eq!(found, expected_id(&text), "{text:?}");
                    if let Some(id) = found {
                        assert!(is_id(&id));
                        assert!(text.contains(&id));
                    }
                }
            }
        }
    }
}

#[test]
fn identifiers_in_odd_places() {
    for text in [
        "spotify:track:-spotify:track:abc",
        "spotify:track:a\nb",
        "/track/a/track/b",
        "/track/a\n",
        "x\n/track/b",
        "/track//track/b",
        "/trackb",
        "track/b",
        "/track/bé",
        "/track/",
        "https://open.spotify.com/track/?/track/z",
        "http://open.spotify.com/track/a https://open.spotify.com/track/b",
        "httpss://open.spotify.com/track/q",
        "https://openxspotify.com/track/q",
        "/album/spotify:track:x/track/y",
    ] {
        assert_eq!(extract_spotify_track_id(text), expected_id(text), "{text:?}");
    }
    assert_eq!(extract_spotify_track_id("/track/a\n"), None);
    assert_eq!(extract_spotify_track_id("x\n/track/b"), Some("b".to_string()));
}

#[test]
fn three_spellings_of_a_track_share_a_key() {
    for id in ["4uLU6hMCjMI75M1A2tKUQC", "a", "0"] {
        let mut a = track();
        a.spotify_url = Some(format!("https://open.spotify.com/track/{id}"));
        a.track_id = Some("spotify:track:other".to_string());
        let mut b = track();
        b.artist = "Someone".to_string();
        b.track_id = Some(format!("spotify:track:{id}"));
        let mut c = track();
        c.duration_ms = 5;
        c.track_id = Some(format!("/com/spotify/track/{id}"));
        for t in [a, b, c] {
            assert_eq!(t.cache_key(), format!("spotify:{id}"));
        }
    }
}

#[test]
fn only_whole_seconds_of_the_length_count() {
    let a = track();
    let mut b = track();
    b.duration_ms = 213_000;
    assert_eq!(a.cache_key(), b.cache_key());
    b.duration_ms = 214_000;
    assert_ne!(a.cache_key(), b.cache_key());
}

#[test]
fn normalising_again_changes_nothing() {
    for n in 0..=0x10ffffu32 {
        if let Some(c) = char::from_u32(n) {
            let once = normalize(&format!(" A{c}b {c} "));
            assert_eq!(normalize(&once), once, "{n:x}");
        }
    }
}

#[test]
fn ascii_names_are_folded() {
    let every: String = (0u8..128).map(char::from).collect();
    let folded = normalize(&every);
    assert_eq!(
        folded,
        every.to_ascii_lowercase().split_whitespace().collect::<Vec<_>>().join(" ")
    );
    assert_eq!(normalize(&folded), folded);
}

#[test]
fn fields_are_parts_of_the_replies() {
    let fields = read_fields(METADATA, STATUS, POSITION);
    for field in [fields.track_id, fields.spotify_url, fields.artist, fields.title, fields.album] {
        assert!(METADATA.contains(&field.expect("the reply holds it")));
    }
    assert!(STATUS.contains(&fields.playback_status.expect("the reply holds it")));
}

fn behind_marks<'a>(s: &'a str, marks: &[&str]) -> Option<&'a str> {
    let mut rest = s.strip_prefix(marks[0])?;
    for mark in &marks[1..] {
        let next = rest.trim_start();
        if next.len() == rest.len() {
            return None;
        }
        rest = next.strip_prefix(mark)?;
    }
    Some(rest)
}

fn places(s: &str) -> Vec<&str> {
    s.char_indices().map(|(at, _)| &s[at..]).collect()
}

fn expected_text(s: &str, marks: &[&str], least: usize) -> Option<String> {
    places(s).into_iter().find_map(|place| {
        let (text, _) = behind_marks(place, marks)?.split_once('"')?;
        if text.len() >= least {
            Some(text.to_string())
        } else {
            None
        }
    })
}

fn expected_number(s: &str, marks: &[&str]) -> Option<u64> {
    let digits = places(s).into_iter().find_map(|place| {
        let rest = behind_marks(place, marks)?;
        let digits: String = rest.chars().take_while(|c| c.is_ascii_digit()).collect();
        if digits.is_empty() {
            None
        } else {
            Some(digits)
        }
    })?;
    digits.parse::<u64>().ok()
}

fn check_fields(text: &str) {
    let fields = read_fields(text, text, text);
    let entry = |name: &str| {
        let mark = format!("string \"{name}\"");
        expected_text(text, &[&mark, "variant", "string \""], 0)
    };
    assert_eq!(fields.track_id, entry("mpris:trackid"), "{text:?}");
    assert_eq!(fields.spotify_url, entry("xesam:url"), "{text:?}");
    assert_eq!(fields.album, entry("xesam:album"), "{text:?}");
    assert_eq!(fields.title, entry("xesam:title"), "{text:?}");
    assert_eq!(
        fields.artist,
        expected_text(
            text,
            &["string \"xesam:artist\"", "variant", "array", "[", "string \""],
            0
        ),
        "{text:?}"
    );
    assert_eq!(
        fields.playback_status,
        expected_text(text, &["variant", "string \""], 1),
        "{text:?}"
    );
    assert_eq!(
        fields.duration_us,
        expected_number(text, &["string \"mpris:length\"", "variant", "uint64", ""]),
        "{text:?}"
    );
    assert_eq!(fields.position_us, expected_number(text, &["int64", ""]), "{text:?}");
}

#[test]
fn fields_stand_where_they_should() {
    check_fields(METADATA);
    check_fields(STATUS);
    check_fields(POSITION);
    let names = [
        "mpris:trackid", "xesam:url", "xesam:album", "xesam:title", "xesam:artist",
        "mpris:length",
    ];
    let gaps = [(" ", "\n\t "), ("\u{3000}\u{a0}", " "), ("", " "), (" ", "\u{200b}")];
    let tails = [
        "string \"\"", "string \"a\nb\" x\"", "string \"no end", "array [ string \"x\"",
        "array[ string \"x\"", "array [string \"x\"", "uint64 12\n", "uint64 007", "uint64 x",
        "uint64  99999999999999999999999 ", "int64 5 é", "uint64", "",
    ];
    for name in names {
        for (first, second) in gaps {
            for tail in tails {
                check_fields(&format!("string \"{name}\"{first}variant{second}{tail}"));
            }
        }
    }
}

#[test]
fn first_place_with_a_field_counts() {
    for name in ["xesam:title", "xesam:artist", "mpris:length"] {
        for tail in ["string \"a\"", "array [ string \"x\"", "uint64 12", "string \"no end", ""] {
            check_fields(&format!(
                "é string \"{name}\" variant string string \"{name}\" variant {tail}\n{METADATA}"
            ));
        }
    }
}

#[test]
fn gaps_are_white_space() {
    for n in 0..=0xffffu32 {
        let Some(c) = char::from_u32(n) else { continue };
        if !(c.is_whitespace() || n < 0x100 || (0x1ff0..0x2070).contains(&n)) {
            continue;
        }
        let status = format!("variant{c}string \"S\"");
        let found = read_fields("", &status, "").playback_status;
        assert_eq!(found.is_some(), c.is_whitespace(), "{n:x}");
    }
}

#[test]
fn printed_entries_read_back() {
    for title in ["", "Title", "two\nlines", "歌 [x] ' \\ é"] {
        for gap in [" ", "\n                ", "\t\u{3000}"] {
            let reply = format!(
                "string \"xesam:title\"{gap}variant{gap}string \"{title}\" string \"xesam:title\" variant string \"other\""
            );
            assert_eq!(read_fields(&reply, "", "").title.as_deref(), Some(title));
        }
    }
}

#[test]
fn digits_of_other_scripts_are_no_numbers() {
    assert_eq!(read_fields("", "", "int64 12\u{663}").position_us, None);
    assert_eq!(read_fields("", "", "int64 \u{663}").position_us, None);
    assert_eq!(read_fields("", "", "int64 12é").position_us, Some(12));
}

#[test]
fn digits_become_numbers() {
    assert_eq!(parse_number(None), None);
    assert_eq!(parse_number(Some("0012".to_string())), Some(12));
    assert_eq!(parse_number(Some("12x".to_string())), None);
}
