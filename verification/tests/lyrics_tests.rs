//! Reading lyrics and offering candidates.
use spotify_lyrics::lrc::{insert_in_order, lrc_line_fits, parse_lrc_line};
use spotify_lyrics::lyrics::{
    accept_search_results, dedup_candidates, lyrics_fit, lyrics_url, parse_candidate,
    plain_lines_of, CandidateDuration, LyricLine, LyricsCandidate, LyricsError,
};

fn candidate(id: i64, synced: &str, plain: &str) -> LyricsCandidate {
    LyricsCandidate {
        id,
        name: String::new(),
        track_name: String::new(),
        artist_name: String::new(),
        album_name: String::new(),
        duration: CandidateDuration::Reported(180.0f64.to_bits()),
        instrumental: false,
        plain_lyrics: plain.to_string(),
        synced_lyrics: synced.to_string(),
        lyrics_file: None,
    }
}

fn read(line: &str) -> Option<(u64, String)> {
    assert!(lrc_line_fits(line));
    parse_lrc_line(line).map(|l| (l.time_ms, l.text))
}

#[test]
fn line_with_hundredths() {
    assert_eq!(read("[01:02.34] Hello"), Some((62_340, "Hello".to_string())));
}

#[test]
fn fractions_of_every_length() {
    assert_eq!(read("[00:01.]x"), Some((1_000, "x".to_string())));
    assert_eq!(read("[00:01.5]x"), Some((1_500, "x".to_string())));
    assert_eq!(read("[00:01.05]x"), Some((1_050, "x".to_string())));
    assert_eq!(read("[00:01.005]x"), Some((1_005, "x".to_string())));
    assert_eq!(read("[00:01.0059]x"), Some((1_005, "x".to_string())));
    assert_eq!(read("[00:01.+5]x"), Some((1_050, "x".to_string())));
}

#[test]
fn numbers_of_any_length_count() {
    assert_eq!(read("[100:75.000]x"), Some((6_075_000, "x".to_string())));
    assert_eq!(read("[+1:+2.3]x"), Some((62_300, "x".to_string())));
}

#[test]
fn text_is_trimmed_and_brackets_in_it_stay() {
    assert_eq!(read("  [00:00.00]  a [b] c \t"), Some((0, "a [b] c".to_string())));
    assert_eq!(read("[00:00.00]\u{3000}歌詞\u{3000}"), Some((0, "歌詞".to_string())));
}

#[test]
fn other_lines_are_skipped() {
    for line in [
        "", "text", "[ar: Someone]", "[00:01]x", "00:01.00]x", "x[00:01.00]y", "[00:01.00]",
        "[00:01.00]   ", "[a:01.00]x", "[00:b.00]x", "[00:01.cd]x", "[00:01.é]x", "[0.0:1]x",
        "[00:01.歌]x", "[:1.0]x", "[1:.0]x",
    ] {
        assert_eq!(read(line), None, "{line:?}");
    }
}

#[test]
fn lines_without_a_meaning_are_told() {
    assert!(!lrc_line_fits("[00:01.12é]x"));
    assert!(!lrc_line_fits("[00:01.12é]"));
    assert!(!lrc_line_fits("[00:01.😀]x"));
    assert!(!lrc_line_fits("[18446744073709551615:00.00]x"));
    assert!(!lrc_line_fits("[307445734561825:51615.999]x"));
    assert!(lrc_line_fits("[18446744073709551615:00.00]"));
    assert!(lrc_line_fits("[a:01.12é]x"));
    assert_eq!(
        read("[307445734561825:51.615]x"),
        Some((18446744073709551615, "x".to_string()))
    );
}

#[test]
fn lyrics_are_read_in_the_order_of_their_times() {
    let c = candidate(
        1,
        "[00:10.00]late\n[ti:Title]\n[00:05.00]early\r\n[00:10.00]late too\n\n[00:07.50]middle",
        "  one \n\n two\n   \nthree",
    );
    assert!(lyrics_fit(&c));
    let parsed = parse_candidate(&c);
    let lines: Vec<(u64, &str)> =
        parsed.lines.iter().map(|l| (l.time_ms, l.text.as_str())).collect();
    assert_eq!(
        lines,
        vec![(5_000, "early"), (7_500, "middle"), (10_000, "late"), (10_000, "late too")]
    );
    assert_eq!(parsed.plain_lines, vec!["one", "two", "three"]);
    let copy = parsed.clone();
    assert_eq!(copy.lines.len(), 4);
    assert_eq!(copy.lines[3].text, "late too");
    assert_eq!(copy.plain_lines, parsed.plain_lines);
}

#[test]
fn sorting_is_stable_as_in_std() {
    let times = [3u64, 1, 3, 2, 1, 0, 3];
    let mut lines: Vec<LyricLine> = Vec::new();
    let mut expected: Vec<(u64, String)> = Vec::new();
    for (i, t) in times.iter().enumerate() {
        insert_in_order(&mut lines, LyricLine { time_ms: *t, text: format!("{i}") });
        expected.push((*t, format!("{i}")));
    }
    expected.sort_by_key(|l| l.0);
    let got: Vec<(u64, String)> = lines.into_iter().map(|l| (l.time_ms, l.text)).collect();
    assert_eq!(got, expected);
}

#[test]
fn lyrics_in_order_stay_as_they_are() {
    let parsed = parse_candidate(&candidate(1, "[00:01.00]a\n[00:01.00]b\n[00:02.00]c", ""));
    let texts: Vec<&str> = parsed.lines.iter().map(|l| l.text.as_str()).collect();
    assert_eq!(texts, vec!["a", "b", "c"]);
}

#[test]
fn candidate_with_a_bad_line_does_not_fit() {
    assert!(!lyrics_fit(&candidate(1, "[00:01.00]a\n[00:01.12é]b", "")));
    assert!(lyrics_fit(&candidate(1, "", "[00:01.12é]b")));
}

#[test]
fn plain_lines_are_trimmed() {
    assert_eq!(plain_lines_of(" a\t\r\n\n\u{3000}b "), vec!["a", "b"]);
    assert!(plain_lines_of(" \n\t\n").is_empty());
}

#[test]
fn candidates_say_what_they_have() {
    let c = candidate(1, " \n", "words");
    assert!(!c.has_synced());
    assert!(c.has_plain());
    let d = candidate(1, "[00:00.00]x", "  ");
    assert!(d.has_synced());
    assert!(!d.has_plain());
}

#[test]
fn titles_of_candidates() {
    let mut c = candidate(-7, "", "");
    assert_eq!(c.display_title(), "id -7");
    c.track_name = "Track".to_string();
    assert_eq!(c.display_title(), "Track");
    c.album_name = "Album".to_string();
    c.artist_name = "Artist".to_string();
    assert_eq!(c.display_title(), "Artist - Track - Album");
    c.plain_lyrics = "la".to_string();
    assert_eq!(c.display_title(), "Artist - Track - Album [plain]");
    c.synced_lyrics = "[00:00.00]la".to_string();
    assert_eq!(c.display_title(), "Artist - Track - Album [synced]");
}

#[test]
fn candidate_is_copied_whole() {
    let mut c = candidate(3, "s", "p");
    c.lyrics_file = Some("file".to_string());
    c.instrumental = true;
    let d = c.clone();
    assert_eq!(format!("{c:?}"), format!("{d:?}"));
}

#[test]
fn first_candidate_of_each_identifier_stays() {
    let mut list = vec![
        candidate(2, "a", ""),
        candidate(1, "b", ""),
        candidate(2, "c", ""),
        candidate(3, "d", ""),
        candidate(1, "e", ""),
    ];
    dedup_candidates(&mut list);
    let kept: Vec<(i64, &str)> =
        list.iter().map(|c| (c.id, c.synced_lyrics.as_str())).collect();
    assert_eq!(kept, vec![(2, "a"), (1, "b"), (3, "d")]);
    dedup_candidates(&mut list);
    assert_eq!(list.len(), 3);
}

#[test]
fn search_results_are_offered_once() {
    let found = accept_search_results(vec![candidate(1, "", ""), candidate(1, "", "")]);
    match found {
        Ok(list) => assert_eq!(list.len(), 1),
        Err(e) => panic!("{e:?}"),
    }
}

#[test]
fn empty_search_is_an_error() {
    match accept_search_results(Vec::new()) {
        Err(e) => {
            assert_eq!(e, LyricsError::NoCandidates);
            assert_eq!(e.message(), "no lyrics candidates found");
        }
        Ok(_) => panic!("nothing was found"),
    }
}

#[test]
fn address_of_a_lyrics_request() {
    assert_eq!(
        lyrics_url("/api/get", "A%20B", "C%26D"),
        "https://lrclib.net/api/get?artist_name=A%20B&track_name=C%26D"
    );
}

#[test]
fn written_lines_stand_at_their_times() {
    for (m, s) in [(0u64, 0u64), (3, 7), (12, 59), (100, 75)] {
        for (f, millis) in [("4", 400u64), ("04", 40), ("40", 400), ("004", 4), ("999", 999)] {
            let line = format!("[{m:02}:{s:02}.{f}]some words");
            assert_eq!(
                read(&line),
                Some(((m * 60 + s) * 1_000 + millis, "some words".to_string()))
            );
        }
    }
}
