//! Lyrics from Spotify itself.
use spotify_lyrics::lyrics::{lyrics_fit, parse_candidate, CandidateDuration};
use spotify_lyrics::official_fetch::{first_step, next_step, Reply, Stage, Step};
use spotify_lyrics::spotify::TrackInfo;
use spotify_lyrics::spotify_official::{
    access_token, build_request, check_home, check_lyrics_reply, check_token_reply,
    common_headers, format_timestamp, lyrics_address, lyrics_headers, lyrics_query,
    request_for_id, response_to_candidate, token_query, OfficialError, SpotifyLyricsBlock,
    SpotifyLyricsLine, SpotifyLyricsResponse,
};
use spotify_lyrics::totp::{code_of, secret_key, Totp};

fn track() -> TrackInfo {
    TrackInfo {
        track_id: None,
        spotify_url: Some("https://open.spotify.com/track/Q1".to_string()),
        artist: "Artist".to_string(),
        title: "Title".to_string(),
        album: "Album".to_string(),
        duration_ms: 61_500,
        position_ms: 0,
        playback_status: "Playing".to_string(),
    }
}

fn served(start: Option<&str>, words: &str) -> SpotifyLyricsLine {
    SpotifyLyricsLine { start_time_ms: start.map(|s| s.to_string()), words: words.to_string() }
}

fn response(lines: Vec<SpotifyLyricsLine>) -> SpotifyLyricsResponse {
    SpotifyLyricsResponse { lyrics: Some(SpotifyLyricsBlock { lines }) }
}

fn message<T>(r: Result<T, OfficialError>) -> String {
    match r {
        Ok(_) => panic!("an error was expected"),
        Err(e) => e.message(),
    }
}

fn pairs(list: &[(String, String)]) -> Vec<(&str, &str)> {
    list.iter().map(|(a, b)| (a.as_str(), b.as_str())).collect()
}

const AGENT: &str = "Mozilla/5.0 (Windows NT 10.0; Win64; x64) AppleWebKit/537.36 (KHTML, like Gecko) Chrome/120.0.0.0 Safari/537.36";

#[test]
fn timestamps() {
    assert_eq!(format_timestamp(0), "00:00.000");
    assert_eq!(format_timestamp(62_345), "01:02.345");
    assert_eq!(format_timestamp(6_000_007), "100:00.007");
    assert_eq!(format_timestamp(u64::MAX), "307445734561825:51.615");
}

#[test]
fn request_needs_an_identifier_and_a_cookie() {
    match build_request(&track(), "  value \n") {
        Ok(request) => {
            assert_eq!(request.track_id, "Q1");
            assert_eq!(request.cookie, "sp_dc=value");
        }
        Err(e) => panic!("{e:?}"),
    }
    let mut unknown = track();
    unknown.spotify_url = None;
    assert_eq!(message(build_request(&unknown, "")), "missing Spotify track id");
    assert_eq!(message(build_request(&track(), " \t")), "missing Spotify sp_dc cookie");
    assert_eq!(message(request_for_id(None, "x")), "missing Spotify track id");
}

#[test]
fn refused_requests() {
    assert!(check_home(200, "200 OK").is_ok());
    assert!(check_home(299, "299").is_ok());
    assert_eq!(
        message(check_home(302, "302 Found")),
        "Spotify home page request failed: HTTP 302 Found"
    );
    assert!(check_token_reply(204, "204 No Content", "").is_ok());
    assert_eq!(
        message(check_token_reply(401, "401 Unauthorized", "")),
        "Spotify access token request failed: HTTP 401 Unauthorized"
    );
    assert_eq!(
        message(check_token_reply(400, "400 Bad Request", "{}")),
        "Spotify access token request failed: HTTP 400 Bad Request body={}"
    );
    assert!(check_lyrics_reply(200, "200 OK").is_ok());
    assert_eq!(
        message(check_lyrics_reply(404, "404 Not Found")),
        "Spotify lyrics request failed: HTTP 404 Not Found"
    );
    assert_eq!(
        message(access_token(None)),
        "Spotify access token response did not contain an access token"
    );
    assert_eq!(access_token(Some("t".to_string())).ok(), Some("t".to_string()));
}

#[test]
fn what_requests_hold() {
    assert_eq!(
        pairs(&token_query("123456", "9")),
        vec![
            ("reason", "init"),
            ("productType", "web-player"),
            ("totp", "123456"),
            ("totpVer", "9"),
            ("totpServer", "123456"),
        ]
    );
    assert_eq!(pairs(&lyrics_query()), vec![("format", "json"), ("market", "from_token")]);
    assert_eq!(
        pairs(&common_headers()),
        vec![("accept", "application/json"), ("user-agent", AGENT)]
    );
    assert_eq!(
        pairs(&lyrics_headers("tok")),
        vec![
            ("authorization", "Bearer tok"),
            ("app-platform", "WebPlayer"),
            ("accept", "application/json"),
            ("user-agent", AGENT),
        ]
    );
    assert_eq!(
        lyrics_address("Q1"),
        "https://spclient.wg.spotify.com/color-lyrics/v2/track/Q1"
    );
}

#[test]
fn served_lyrics_become_a_candidate() {
    let lines = vec![
        served(Some("61500"), " second "),
        served(Some("1000"), "first"),
        served(Some("2000"), "   "),
        served(Some("soon"), "untimed"),
        served(None, "no time"),
    ];
    let c = match response_to_candidate(&track(), &response(lines)) {
        Ok(c) => c,
        Err(e) => panic!("{e:?}"),
    };
    assert_eq!(c.id, 0);
    assert_eq!(c.name, "Spotify official");
    assert_eq!(c.track_name, "Title");
    assert_eq!(c.artist_name, "Artist");
    assert_eq!(c.album_name, "Album");
    assert_eq!(c.duration, CandidateDuration::Track(61_500));
    assert!(!c.instrumental);
    assert_eq!(c.plain_lyrics, "second\nfirst\nuntimed\nno time");
    assert_eq!(c.synced_lyrics, "[01:01.500]second\n[00:01.000]first");
    assert_eq!(c.lyrics_file, None);
}

#[test]
fn served_lyrics_read_back() {
    let lines = vec![
        served(Some("18446744073709551615"), "end"),
        served(Some("1234"), "[odd] words"),
        served(Some("0"), "start"),
        served(None, "spoken"),
    ];
    let c = response_to_candidate(&track(), &response(lines)).expect("there are lyrics");
    assert!(lyrics_fit(&c));
    let parsed = parse_candidate(&c);
    let got: Vec<(u64, &str)> =
        parsed.lines.iter().map(|l| (l.time_ms, l.text.as_str())).collect();
    assert_eq!(got, vec![(0, "start"), (1_234, "[odd] words"), (u64::MAX, "end")]);
    assert_eq!(parsed.plain_lines, vec!["end", "[odd] words", "start", "spoken"]);
}

#[test]
fn words_with_a_line_feed_fall_apart() {
    let c = response_to_candidate(&track(), &response(vec![served(Some("5"), "a\nb")]))
        .expect("there are lyrics");
    let parsed = parse_candidate(&c);
    assert_eq!(parsed.lines.len(), 1);
    assert_eq!(parsed.lines[0].text, "a");
    assert_eq!(parsed.plain_lines, vec!["a", "b"]);
}

#[test]
fn answers_without_lyrics() {
    let none = SpotifyLyricsResponse { lyrics: None };
    assert_eq!(message(response_to_candidate(&track(), &none)), "no Spotify lyrics available");
    let blank = response(vec![served(Some("1"), " "), served(None, "")]);
    assert_eq!(
        message(response_to_candidate(&track(), &blank)),
        "Spotify lyrics response did not contain any lyrics"
    );
}

#[test]
fn codes_of_the_hotp_standard() {
    let totp = Totp {
        secret: b"12345678901234567890".to_vec(),
        version: "1".to_string(),
        period: 30,
        digits: 6,
    };
    let expected = [
        "755224", "287082", "359152", "969429", "338314", "254676", "287922", "162583", "399871",
        "520489",
    ];
    for (counter, code) in expected.iter().enumerate() {
        let start = counter as u64 * 30_000;
        assert_eq!(totp.generate(start).ok().as_deref(), Some(*code));
        assert_eq!(totp.generate(start + 29_999).ok().as_deref(), Some(*code));
    }
}

#[test]
fn codes_of_the_totp_standard() {
    let totp = Totp {
        secret: b"12345678901234567890".to_vec(),
        version: String::new(),
        period: 30,
        digits: 8,
    };
    assert_eq!(totp.generate(59_000).ok().as_deref(), Some("94287082"));
    assert_eq!(totp.generate(1_111_111_109_000).ok().as_deref(), Some("07081804"));
    assert_eq!(totp.generate(20_000_000_000_000).ok().as_deref(), Some("65353130"));
}

#[test]
fn code_of_a_hash() {
    let mut hash = [0u8; 20];
    hash[19] = 0x05;
    hash[5] = 0xff;
    hash[6] = 0x01;
    hash[7] = 0x02;
    hash[8] = 0x03;
    assert_eq!(code_of(&hash, 9), format!("{:09}", 0x7f010203u32 % 1_000_000_000));
    assert_eq!(code_of(&hash, 0), "0");
    assert_eq!(code_of(&[0u8; 20], 6), "000000");
}

#[test]
fn keys_of_secrets() {
    let masked: Vec<Option<i64>> = [12u8, 0, 255]
        .iter()
        .enumerate()
        .map(|(i, b)| Some(*b as i64 ^ (i as i64 % 33 + 9)))
        .collect();
    assert_eq!(secret_key(&masked).ok(), Some(b"120255".to_vec()));
    assert_eq!(secret_key(&Vec::new()).ok(), Some(Vec::new()));
    assert_eq!(
        message(secret_key(&vec![Some(9), None])),
        "Spotify TOTP secret dictionary entry is not an integer"
    );
    assert_eq!(
        message(secret_key(&vec![Some(-1), None])),
        "Spotify TOTP secret dictionary entry out of range"
    );
}

#[test]
fn mask_begins_anew_after_thirty_three_codes() {
    let masked: Vec<Option<i64>> = (0..40i64).map(|i| Some(7 ^ (i % 33 + 9))).collect();
    assert_eq!(secret_key(&masked).ok(), Some(vec![b'7'; 40]));
}

#[test]
fn dictionaries_of_secrets() {
    let totp = Totp::new(200, "200 OK", br#"{"8": [1], "9": [9, 10, 11]}"#).expect("a secret");
    assert_eq!(totp.version, "9");
    assert_eq!(totp.secret, b"000".to_vec());
    assert_eq!(totp.period, 30);
    assert_eq!(totp.digits, 6);
    let text = |status: u16, body: &str| message(Totp::new(status, "503 Busy", body.as_bytes()));
    assert_eq!(
        text(503, "{}"),
        "failed to fetch Spotify TOTP secret dictionary: HTTP 503 Busy"
    );
    assert_eq!(text(200, "no json"), "failed to parse Spotify TOTP secret dictionary");
    assert_eq!(text(200, "[1]"), "Spotify TOTP secret dictionary is not an object");
    assert_eq!(text(200, "{}"), "Spotify TOTP secret dictionary is empty");
    assert_eq!(
        text(200, r#"{"1": 5}"#),
        "Spotify TOTP secret dictionary entry is not an array"
    );
    assert_eq!(
        text(200, r#"{"1": [1.5]}"#),
        "Spotify TOTP secret dictionary entry is not an integer"
    );
    assert_eq!(
        text(200, r#"{"1": [1000]}"#),
        "Spotify TOTP secret dictionary entry out of range"
    );
}

#[test]
fn last_member_of_a_dictionary_counts() {
    let members = vec![
        ("1".to_string(), None),
        ("2".to_string(), Some(vec![Some(9)])),
    ];
    let totp = Totp::from_dictionary(Some(members)).expect("a secret");
    assert_eq!(totp.version, "2");
    assert_eq!(totp.secret, b"0".to_vec());
    assert_eq!(
        message(Totp::from_dictionary(None)),
        "Spotify TOTP secret dictionary is not an object"
    );
}

fn asked(step: Step) -> (Stage, spotify_lyrics::official_fetch::Request) {
    match step {
        Step::Ask(stage, request) => (stage, request),
        other => panic!("{other:?}"),
    }
}

fn failed(step: Step) -> String {
    match step {
        Step::Failed(e) => e.message(),
        other => panic!("{other:?}"),
    }
}

#[test]
fn course_of_a_fetch() {
    let t = track();
    let (stage, home) = asked(first_step());
    assert_eq!(stage, Stage::Home);
    assert_eq!(home.url, "https://open.spotify.com");
    assert!(home.in_session);
    assert_eq!(home.headers.len(), 2);

    let ok = || "200 OK".to_string();
    let (stage, secret) =
        asked(next_step(&t, "Q1", Reply::Home { status: 200, reason: ok() }));
    assert_eq!(stage, Stage::Secret);
    assert_eq!(
        secret.url,
        "https://code.thetadev.de/ThetaDev/spotify-secrets/raw/branch/main/secrets/secretDict.json"
    );
    assert!(!secret.in_session);
    assert!(secret.headers.is_empty());

    let codes: Vec<String> = b"\x01\x02\x03"
        .iter()
        .enumerate()
        .map(|(i, b)| format!("{}", *b as i64 ^ (i as i64 + 9)))
        .collect();
    let dictionary = format!("{{\"7\": [{}]}}", codes.join(",")).into_bytes();
    let expected = Totp {
        secret: b"123".to_vec(),
        version: "7".to_string(),
        period: 30,
        digits: 6,
    }
    .generate(1_700_000_000_000)
    .expect("a code");
    let (stage, token) = asked(next_step(
        &t,
        "Q1",
        Reply::Secret { status: 200, reason: ok(), dictionary, now_ms: 1_700_000_000_000 },
    ));
    assert_eq!(stage, Stage::Token);
    assert_eq!(token.url, "https://open.spotify.com/api/token");
    assert_eq!(token.query[2], ("totp".to_string(), expected.clone()));
    assert_eq!(token.query[3], ("totpVer".to_string(), "7".to_string()));
    assert_eq!(token.query[4], ("totpServer".to_string(), expected));

    let (stage, lyrics) = asked(next_step(
        &t,
        "Q1",
        Reply::Token {
            status: 200,
            reason: ok(),
            body: String::new(),
            token: Some("tok".to_string()),
        },
    ));
    assert_eq!(stage, Stage::Lyrics);
    assert_eq!(lyrics.url, "https://spclient.wg.spotify.com/color-lyrics/v2/track/Q1");
    assert_eq!(lyrics.headers[0], ("authorization".to_string(), "Bearer tok".to_string()));

    let reply = Reply::Lyrics {
        status: 200,
        reason: ok(),
        response: response(vec![served(Some("1"), "la")]),
    };
    match next_step(&t, "Q1", reply) {
        Step::Done(c) => assert_eq!(c.synced_lyrics, "[00:00.001]la"),
        other => panic!("{other:?}"),
    }
}

#[test]
fn fetches_that_fail() {
    let t = track();
    let busy = || "503 Busy".to_string();
    assert_eq!(
        failed(next_step(&t, "Q1", Reply::Unanswered("timed out".to_string()))),
        "timed out"
    );
    assert_eq!(
        failed(next_step(&t, "Q1", Reply::Home { status: 503, reason: busy() })),
        "Spotify home page request failed: HTTP 503 Busy"
    );
    assert_eq!(
        failed(next_step(
            &t,
            "Q1",
            Reply::Secret { status: 503, reason: busy(), dictionary: Vec::new(), now_ms: 0 }
        )),
        "failed to fetch Spotify TOTP secret dictionary: HTTP 503 Busy"
    );
    assert_eq!(
        failed(next_step(
            &t,
            "Q1",
            Reply::Token { status: 503, reason: busy(), body: "b".to_string(), token: None }
        )),
        "Spotify access token request failed: HTTP 503 Busy body=b"
    );
    assert_eq!(
        failed(next_step(
            &t,
            "Q1",
            Reply::Token { status: 200, reason: busy(), body: String::new(), token: None }
        )),
        "Spotify access token response did not contain an access token"
    );
    assert_eq!(
        failed(next_step(
            &t,
            "Q1",
            Reply::Lyrics {
                status: 503,
                reason: busy(),
                response: SpotifyLyricsResponse { lyrics: None },
            }
        )),
        "Spotify lyrics request failed: HTTP 503 Busy"
    );
    assert_eq!(
        OfficialError::CodeUnavailable.message(),
        "failed to initialize Spotify TOTP HMAC"
    );
}
