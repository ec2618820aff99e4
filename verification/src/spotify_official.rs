//! The lyrics that Spotify itself serves: requests and replies.
use vstd::prelude::*;

use crate::digits::{padded_text, parse_u64_text};
use crate::lyrics::{CandidateDuration, LyricsCandidate};
use crate::spotify::TrackInfo;
use crate::text::{join_texts, trim_text};

verus! {

pub const SPOTIFY_HOME: &'static str = "https://open.spotify.com";

pub const TOKEN_URL: &'static str = "https://open.spotify.com/api/token";

pub const LYRICS_URL_PREFIX: &'static str =
    "https://spclient.wg.spotify.com/color-lyrics/v2/track/";

pub const SECRET_CIPHER_DICT_URL: &'static str =
    "https://code.thetadev.de/ThetaDev/spotify-secrets/raw/branch/main/secrets/secretDict.json";

pub const USER_AGENT_VALUE: &'static str =
    "Mozilla/5.0 (Windows NT 10.0; Win64; x64) AppleWebKit/537.36 (KHTML, like Gecko) Chrome/120.0.0.0 Safari/537.36";

/// Why Spotify gives no lyrics. A refused request carries the status that the
/// server answered with, a refused token also the text of the answer; a request
/// without an answer that can be read carries the text that says so.
#[derive(Debug)]
pub enum OfficialError {
    MissingTrackId,
    MissingCookie,
    HomeRefused(String),
    SecretRefused(String),
    SecretUnreadable,
    SecretNotAnObject,
    SecretEmpty,
    SecretNotAnArray,
    SecretNotAnInteger,
    SecretOutOfRange,
    CodeUnavailable,
    TokenRefused(String, String),
    NoToken,
    LyricsRefused(String),
    NoLyrics,
    EmptyLyrics,
    Unanswered(String),
}

/// What an `OfficialError` stands for.
#[verifier::ext_equal]
pub enum OfficialFault {
    MissingTrackId,
    MissingCookie,
    HomeRefused(Seq<char>),
    SecretRefused(Seq<char>),
    SecretUnreadable,
    SecretNotAnObject,
    SecretEmpty,
    SecretNotAnArray,
    SecretNotAnInteger,
    SecretOutOfRange,
    CodeUnavailable,
    TokenRefused(Seq<char>, Seq<char>),
    NoToken,
    LyricsRefused(Seq<char>),
    NoLyrics,
    EmptyLyrics,
    Unanswered(Seq<char>),
}

impl View for OfficialError {
    type V = OfficialFault;

    open spec fn view(&self) -> OfficialFault {
        match self {
            OfficialError::MissingTrackId => OfficialFault::MissingTrackId,
            OfficialError::MissingCookie => OfficialFault::MissingCookie,
            OfficialError::HomeRefused(status) => OfficialFault::HomeRefused(status@),
            OfficialError::SecretRefused(status) => OfficialFault::SecretRefused(status@),
            OfficialError::SecretUnreadable => OfficialFault::SecretUnreadable,
            OfficialError::SecretNotAnObject => OfficialFault::SecretNotAnObject,
            OfficialError::SecretEmpty => OfficialFault::SecretEmpty,
            OfficialError::SecretNotAnArray => OfficialFault::SecretNotAnArray,
            OfficialError::SecretNotAnInteger => OfficialFault::SecretNotAnInteger,
            OfficialError::SecretOutOfRange => OfficialFault::SecretOutOfRange,
            OfficialError::CodeUnavailable => OfficialFault::CodeUnavailable,
            OfficialError::TokenRefused(status, body) => OfficialFault::TokenRefused(
                status@,
                body@,
            ),
            OfficialError::NoToken => OfficialFault::NoToken,
            OfficialError::LyricsRefused(status) => OfficialFault::LyricsRefused(status@),
            OfficialError::NoLyrics => OfficialFault::NoLyrics,
            OfficialError::EmptyLyrics => OfficialFault::EmptyLyrics,
            OfficialError::Unanswered(text) => OfficialFault::Unanswered(text@),
        }
    }
}

/// The text that is shown for an error.
pub open spec fn fault_text(fault: OfficialFault) -> Seq<char> {
    match fault {
        OfficialFault::MissingTrackId => "missing Spotify track id"@,
        OfficialFault::MissingCookie => "missing Spotify sp_dc cookie"@,
        OfficialFault::HomeRefused(status) => "Spotify home page request failed: HTTP "@ + status,
        OfficialFault::SecretRefused(status) =>
            "failed to fetch Spotify TOTP secret dictionary: HTTP "@ + status,
        OfficialFault::SecretUnreadable => "failed to parse Spotify TOTP secret dictionary"@,
        OfficialFault::SecretNotAnObject => "Spotify TOTP secret dictionary is not an object"@,
        OfficialFault::SecretEmpty => "Spotify TOTP secret dictionary is empty"@,
        OfficialFault::SecretNotAnArray => "Spotify TOTP secret dictionary entry is not an array"@,
        OfficialFault::SecretNotAnInteger =>
            "Spotify TOTP secret dictionary entry is not an integer"@,
        OfficialFault::SecretOutOfRange => "Spotify TOTP secret dictionary entry out of range"@,
        OfficialFault::CodeUnavailable => "failed to initialize Spotify TOTP HMAC"@,
        OfficialFault::TokenRefused(status, body) => if body.len() == 0 {
            "Spotify access token request failed: HTTP "@ + status
        } else {
            "Spotify access token request failed: HTTP "@ + status + " body="@ + body
        },
        OfficialFault::NoToken =>
            "Spotify access token response did not contain an access token"@,
        OfficialFault::LyricsRefused(status) => "Spotify lyrics request failed: HTTP "@ + status,
        OfficialFault::NoLyrics => "no Spotify lyrics available"@,
        OfficialFault::EmptyLyrics => "Spotify lyrics response did not contain any lyrics"@,
        OfficialFault::Unanswered(text) => text,
    }
}

/// Two texts, one after the other.
fn concat(a: &str, b: &str) -> (r: String)
    ensures
        r@ == a@ + b@,
{
    let mut out = a.to_owned();
    out.append(b);
    out
}

impl OfficialError {
    /// The text that is shown for the error.
    pub fn message(&self) -> (r: String)
        ensures
            r@ == fault_text(self@),
    {
        match self {
            OfficialError::MissingTrackId => "missing Spotify track id".to_owned(),
            OfficialError::MissingCookie => "missing Spotify sp_dc cookie".to_owned(),
            OfficialError::HomeRefused(status) => concat(
                "Spotify home page request failed: HTTP ",
                status.as_str(),
            ),
            OfficialError::SecretRefused(status) => concat(
                "failed to fetch Spotify TOTP secret dictionary: HTTP ",
                status.as_str(),
            ),
            OfficialError::SecretUnreadable =>
                "failed to parse Spotify TOTP secret dictionary".to_owned(),
            OfficialError::SecretNotAnObject =>
                "Spotify TOTP secret dictionary is not an object".to_owned(),
            OfficialError::SecretEmpty => "Spotify TOTP secret dictionary is empty".to_owned(),
            OfficialError::SecretNotAnArray =>
                "Spotify TOTP secret dictionary entry is not an array".to_owned(),
            OfficialError::SecretNotAnInteger =>
                "Spotify TOTP secret dictionary entry is not an integer".to_owned(),
            OfficialError::SecretOutOfRange =>
                "Spotify TOTP secret dictionary entry out of range".to_owned(),
            OfficialError::CodeUnavailable => "failed to initialize Spotify TOTP HMAC".to_owned(),
            OfficialError::TokenRefused(status, body) => {
                let mut text = concat(
                    "Spotify access token request failed: HTTP ",
                    status.as_str(),
                );
                if !body.as_str().is_empty() {
                    text.append(" body=");
                    text.append(body.as_str());
                }
                text
            },
            OfficialError::NoToken =>
                "Spotify access token response did not contain an access token".to_owned(),
            OfficialError::LyricsRefused(status) => concat(
                "Spotify lyrics request failed: HTTP ",
                status.as_str(),
            ),
            OfficialError::NoLyrics => "no Spotify lyrics available".to_owned(),
            OfficialError::EmptyLyrics =>
                "Spotify lyrics response did not contain any lyrics".to_owned(),
            OfficialError::Unanswered(text) => text.clone(),
        }
    }
}

/// The HTTP statuses of success.
pub open spec fn is_success(status: u16) -> bool {
    200 <= status < 300
}

/// What a request for a track's lyrics needs: the track's Spotify identifier
/// and the session cookie.
#[derive(Debug)]
pub struct OfficialRequest {
    pub track_id: String,
    pub cookie: String,
}

/// The identifier and the cookie of a request; a track without a Spotify
/// identifier is refused before an empty `sp_dc` is.
pub open spec fn request_for(id: Option<Seq<char>>, sp_dc: Seq<char>) -> Result<
    (Seq<char>, Seq<char>),
    OfficialFault,
> {
    match id {
        None => Err(OfficialFault::MissingTrackId),
        Some(id) => if crate::text::trim(sp_dc).len() == 0 {
            Err(OfficialFault::MissingCookie)
        } else {
            Ok((id, "sp_dc="@ + crate::text::trim(sp_dc)))
        },
    }
}

/// The request for the lyrics of a Spotify track.
pub fn request_for_id(id: Option<String>, sp_dc: &str) -> (r: Result<
    OfficialRequest,
    OfficialError,
>)
    ensures
        match r {
            Ok(q) => request_for(id.deep_view(), sp_dc@) == Ok::<
                (Seq<char>, Seq<char>),
                OfficialFault,
            >((q.track_id@, q.cookie@)),
            Err(e) => request_for(id.deep_view(), sp_dc@) == Err::<
                (Seq<char>, Seq<char>),
                OfficialFault,
            >(e@),
        },
{
    let track_id: String = match id {
        Some(id) => id,
        None => return Err(OfficialError::MissingTrackId),
    };
    let value: String = trim_text(sp_dc);
    if value.as_str().is_empty() {
        return Err(OfficialError::MissingCookie);
    }
    Ok(OfficialRequest { track_id, cookie: concat("sp_dc=", value.as_str()) })
}

/// The request for the lyrics of a track.
pub fn build_request(track: &TrackInfo, sp_dc: &str) -> (r: Result<OfficialRequest, OfficialError>)
    ensures
        match r {
            Ok(q) => request_for(crate::spotify::spotify_id(track@), sp_dc@) == Ok::<
                (Seq<char>, Seq<char>),
                OfficialFault,
            >((q.track_id@, q.cookie@)),
            Err(e) => request_for(crate::spotify::spotify_id(track@), sp_dc@) == Err::<
                (Seq<char>, Seq<char>),
                OfficialFault,
            >(e@),
        },
{
    request_for_id(track.spotify_track_id(), sp_dc)
}

/// Accepts the reply for the home page, or not.
pub fn check_home(status: u16, reason: &str) -> (r: Result<(), OfficialError>)
    ensures
        match r {
            Ok(()) => is_success(status),
            Err(e) => !is_success(status) && e@ == OfficialFault::HomeRefused(reason@),
        },
{
    if 200 <= status && status < 300 {
        Ok(())
    } else {
        Err(OfficialError::HomeRefused(reason.to_owned()))
    }
}

/// The names and values of the token request, for a one-time code and the
/// version of its secret.
pub open spec fn token_query_of(code: Seq<char>, version: Seq<char>) -> Seq<
    (Seq<char>, Seq<char>),
> {
    seq![
        ("reason"@, "init"@),
        ("productType"@, "web-player"@),
        ("totp"@, code),
        ("totpVer"@, version),
        ("totpServer"@, code),
    ]
}

fn pair(name: &str, value: &str) -> (r: (String, String))
    ensures
        r.deep_view() == (name@, value@),
{
    (name.to_owned(), value.to_owned())
}

/// The names and values of the token request.
pub fn token_query(code: &str, version: &str) -> (r: Vec<(String, String)>)
    ensures
        r.deep_view() == token_query_of(code@, version@),
{
    let mut query: Vec<(String, String)> = Vec::new();
    query.push(pair("reason", "init"));
    query.push(pair("productType", "web-player"));
    query.push(pair("totp", code));
    query.push(pair("totpVer", version));
    query.push(pair("totpServer", code));
    assert(query.deep_view() =~= token_query_of(code@, version@));
    query
}

/// Accepts the reply for a token, or not; `body` is the text of the reply.
pub fn check_token_reply(status: u16, reason: &str, body: &str) -> (r: Result<(), OfficialError>)
    ensures
        match r {
            Ok(()) => is_success(status),
            Err(e) => !is_success(status) && e@ == OfficialFault::TokenRefused(reason@, body@),
        },
{
    if 200 <= status && status < 300 {
        Ok(())
    } else {
        Err(OfficialError::TokenRefused(reason.to_owned(), body.to_owned()))
    }
}

/// The token of a reply that holds one.
pub fn access_token(token: Option<String>) -> (r: Result<String, OfficialError>)
    ensures
        match r {
            Ok(text) => token.deep_view() == Some(text@),
            Err(e) => token is None && e@ == OfficialFault::NoToken,
        },
{
    match token {
        Some(text) => Ok(text),
        None => Err(OfficialError::NoToken),
    }
}

/// The address of a track's lyrics.
pub fn lyrics_address(track_id: &str) -> (r: String)
    ensures
        r@ == LYRICS_URL_PREFIX@ + track_id@,
{
    concat(LYRICS_URL_PREFIX, track_id)
}

/// The names and values of the lyrics request.
pub fn lyrics_query() -> (r: Vec<(String, String)>)
    ensures
        r.deep_view() == seq![("format"@, "json"@), ("market"@, "from_token"@)],
{
    let mut query: Vec<(String, String)> = Vec::new();
    query.push(pair("format", "json"));
    query.push(pair("market", "from_token"));
    assert(query.deep_view() =~= seq![("format"@, "json"@), ("market"@, "from_token"@)]);
    query
}

/// The headers of every request.
pub open spec fn common_headers_of() -> Seq<(Seq<char>, Seq<char>)> {
    seq![("accept"@, "application/json"@), ("user-agent"@, USER_AGENT_VALUE@)]
}

/// The headers of the lyrics request.
pub open spec fn lyrics_headers_of(token: Seq<char>) -> Seq<(Seq<char>, Seq<char>)> {
    seq![("authorization"@, "Bearer "@ + token), ("app-platform"@, "WebPlayer"@)]
        + common_headers_of()
}

/// The headers of every request.
pub fn common_headers() -> (r: Vec<(String, String)>)
    ensures
        r.deep_view() == common_headers_of(),
{
    let mut headers: Vec<(String, String)> = Vec::new();
    headers.push(pair("accept", "application/json"));
    headers.push(pair("user-agent", USER_AGENT_VALUE));
    assert(headers.deep_view() =~= common_headers_of());
    headers
}

/// The headers of the lyrics request.
pub fn lyrics_headers(token: &str) -> (r: Vec<(String, String)>)
    ensures
        r.deep_view() == lyrics_headers_of(token@),
{
    let mut headers: Vec<(String, String)> = Vec::new();
    headers.push(pair("authorization", concat("Bearer ", token).as_str()));
    headers.push(pair("app-platform", "WebPlayer"));
    headers.push(pair("accept", "application/json"));
    headers.push(pair("user-agent", USER_AGENT_VALUE));
    assert(headers.deep_view() =~= lyrics_headers_of(token@));
    headers
}

/// Accepts the reply for lyrics, or not.
pub fn check_lyrics_reply(status: u16, reason: &str) -> (r: Result<(), OfficialError>)
    ensures
        match r {
            Ok(()) => is_success(status),
            Err(e) => !is_success(status) && e@ == OfficialFault::LyricsRefused(reason@),
        },
{
    if 200 <= status && status < 300 {
        Ok(())
    } else {
        Err(OfficialError::LyricsRefused(reason.to_owned()))
    }
}

/// A line of the lyrics that Spotify serves.
#[derive(Debug)]
pub struct SpotifyLyricsLine {
    pub start_time_ms: Option<String>,
    pub words: String,
}

/// The lyrics that Spotify serves.
#[derive(Debug)]
pub struct SpotifyLyricsBlock {
    pub lines: Vec<SpotifyLyricsLine>,
}

/// Spotify's answer to a request for lyrics.
#[derive(Debug)]
pub struct SpotifyLyricsResponse {
    pub lyrics: Option<SpotifyLyricsBlock>,
}

/// What a `SpotifyLyricsLine` stands for.
#[verifier::ext_equal]
pub struct ServedLine {
    pub start_time_ms: Option<Seq<char>>,
    pub words: Seq<char>,
}

impl View for SpotifyLyricsLine {
    type V = ServedLine;

    open spec fn view(&self) -> ServedLine {
        ServedLine { start_time_ms: self.start_time_ms.deep_view(), words: self.words@ }
    }
}

impl DeepView for SpotifyLyricsLine {
    type V = ServedLine;

    open spec fn deep_view(&self) -> ServedLine {
        self@
    }
}

impl DeepView for SpotifyLyricsBlock {
    type V = Seq<ServedLine>;

    open spec fn deep_view(&self) -> Seq<ServedLine> {
        self.lines.deep_view()
    }
}

/// A time as minutes, seconds and milliseconds.
pub open spec fn timestamp(time_ms: u64) -> Seq<char> {
    crate::digits::zero_padded(crate::digits::decimal(time_ms as nat / 60_000), 2) + ":"@
        + crate::digits::zero_padded(crate::digits::decimal(time_ms as nat % 60_000 / 1_000), 2)
        + "."@ + crate::digits::zero_padded(crate::digits::decimal(time_ms as nat % 1_000), 3)
}

/// A line of synchronised lyrics as a text.
pub open spec fn stamped(line: crate::lrc::LineModel) -> Seq<char> {
    "["@ + timestamp(line.time_ms) + "]"@ + line.text
}

/// The line with a time that a served line stands for: its time has to be a
/// number and its words must not be blank.
pub open spec fn timed_line(line: ServedLine) -> Option<crate::lrc::LineModel> {
    match line.start_time_ms {
        None => None,
        Some(start) => match crate::digits::u64_value(start) {
            None => None,
            Some(time_ms) => if crate::text::trim(line.words).len() == 0 {
                None
            } else {
                Some(
                    crate::lrc::LineModel { time_ms, text: crate::text::trim(line.words) },
                )
            },
        },
    }
}

/// The lines with a time among served lines.
pub open spec fn timed_lines(lines: Seq<ServedLine>) -> Seq<crate::lrc::LineModel>
    decreases lines.len(),
{
    if lines.len() == 0 {
        Seq::empty()
    } else {
        let before = timed_lines(lines.drop_last());
        match timed_line(lines.last()) {
            Some(line) => before.push(line),
            None => before,
        }
    }
}

/// The words of served lines that are not blank, trimmed.
pub open spec fn spoken(lines: Seq<ServedLine>) -> Seq<Seq<char>>
    decreases lines.len(),
{
    if lines.len() == 0 {
        Seq::empty()
    } else {
        let before = spoken(lines.drop_last());
        let words = crate::text::trim(lines.last().words);
        if words.len() > 0 {
            before.push(words)
        } else {
            before
        }
    }
}

/// The texts of lines with a time.
pub open spec fn stamped_all(lines: Seq<crate::lrc::LineModel>) -> Seq<Seq<char>> {
    Seq::new(lines.len(), |i: int| stamped(lines[i]))
}

/// The candidate for the lyrics that Spotify serves for a track.
pub open spec fn official_candidate(
    track: crate::spotify::TrackModel,
    lines: Seq<ServedLine>,
) -> crate::lyrics::CandidateModel {
    crate::lyrics::CandidateModel {
        id: 0,
        name: "Spotify official"@,
        track_name: track.title,
        artist_name: track.artist,
        album_name: track.album,
        duration: CandidateDuration::Track(track.duration_ms),
        instrumental: false,
        plain_lyrics: crate::text::join(spoken(lines), "\n"@),
        synced_lyrics: crate::text::join(stamped_all(timed_lines(lines)), "\n"@),
        lyrics_file: None,
    }
}

/// What Spotify's answer gives: an answer without lyrics, and lyrics of blank
/// lines only, are errors.
pub open spec fn candidate_of_response(
    track: crate::spotify::TrackModel,
    lyrics: Option<Seq<ServedLine>>,
) -> Result<crate::lyrics::CandidateModel, OfficialFault> {
    match lyrics {
        None => Err(OfficialFault::NoLyrics),
        Some(lines) => if spoken(lines).len() == 0 {
            Err(OfficialFault::EmptyLyrics)
        } else {
            Ok(official_candidate(track, lines))
        },
    }
}

/// A time as minutes, seconds and milliseconds.
pub fn format_timestamp(time_ms: u64) -> (r: String)
    ensures
        r@ == timestamp(time_ms),
{
    let mut out: String = padded_text(time_ms / 60_000, 2);
    out.append(":");
    out.append(padded_text(time_ms % 60_000 / 1_000, 2).as_str());
    out.append(".");
    out.append(padded_text(time_ms % 1_000, 3).as_str());
    out
}

/// The words of served lines that are not blank, trimmed.
fn spoken_lines(lines: &Vec<SpotifyLyricsLine>) -> (r: Vec<String>)
    ensures
        r.deep_view() == spoken(lines.deep_view()),
{
    let ghost all = lines.deep_view();
    let mut out: Vec<String> = Vec::new();
    let mut i: usize = 0;
    assert(out.deep_view() =~= spoken(all.take(0)));
    while i < lines.len()
        invariant
            i <= lines.len(),
            all == lines.deep_view(),
            out.deep_view() == spoken(all.take(i as int)),
        decreases lines.len() - i,
    {
        let words: String = trim_text(lines[i].words.as_str());
        let ghost before = out.deep_view();
        proof {
            assert(all.take(i + 1).drop_last() =~= all.take(i as int));
            assert(all.take(i + 1).last() == lines@[i as int]@);
        }
        if !words.as_str().is_empty() {
            let ghost w = words@;
            out.push(words);
            assert(out.deep_view() =~= before.push(w));
        }
        i = i + 1;
    }
    assert(all.take(i as int) =~= all);
    out
}

/// The texts of the served lines that have a time.
fn stamped_lines(lines: &Vec<SpotifyLyricsLine>) -> (r: Vec<String>)
    ensures
        r.deep_view() == stamped_all(timed_lines(lines.deep_view())),
{
    let ghost all = lines.deep_view();
    let mut out: Vec<String> = Vec::new();
    let mut i: usize = 0;
    assert(out.deep_view() =~= stamped_all(timed_lines(all.take(0))));
    while i < lines.len()
        invariant
            i <= lines.len(),
            all == lines.deep_view(),
            out.deep_view() == stamped_all(timed_lines(all.take(i as int))),
        decreases lines.len() - i,
    {
        let ghost before = timed_lines(all.take(i as int));
        proof {
            assert(all.take(i + 1).drop_last() =~= all.take(i as int));
            assert(all.take(i + 1).last() == lines@[i as int]@);
        }
        let time: Option<u64> = match &lines[i].start_time_ms {
            Some(start) => parse_u64_text(start.as_str()),
            None => None,
        };
        let words: String = trim_text(lines[i].words.as_str());
        if let Some(time_ms) = time {
            if !words.as_str().is_empty() {
                let mut text = "[".to_owned();
                text.append(format_timestamp(time_ms).as_str());
                text.append("]");
                text.append(words.as_str());
                let ghost line = crate::lrc::LineModel { time_ms, text: words@ };
                assert(timed_line(lines@[i as int]@) == Some(line));
                assert(text@ == stamped(line));
                let ghost kept = out.deep_view();
                out.push(text);
                assert(out.deep_view() =~= kept.push(stamped(line)));
                assert(stamped_all(before.push(line)) =~= stamped_all(before).push(stamped(line)));
            }
        }
        i = i + 1;
    }
    assert(all.take(i as int) =~= all);
    out
}

/// A line with a time has words.
proof fn lemma_timed_is_spoken(lines: Seq<ServedLine>)
    ensures
        timed_lines(lines).len() <= spoken(lines).len(),
    decreases lines.len(),
{
    if lines.len() > 0 {
        lemma_timed_is_spoken(lines.drop_last());
    }
}

/// The candidate for Spotify's answer.
pub fn response_to_candidate(track: &TrackInfo, response: &SpotifyLyricsResponse) -> (r: Result<
    LyricsCandidate,
    OfficialError,
>)
    ensures
        match r {
            Ok(c) => candidate_of_response(track@, response.lyrics.deep_view()) == Ok::<
                crate::lyrics::CandidateModel,
                OfficialFault,
            >(c@),
            Err(e) => candidate_of_response(track@, response.lyrics.deep_view()) == Err::<
                crate::lyrics::CandidateModel,
                OfficialFault,
            >(e@),
        },
{
    let lyrics: &SpotifyLyricsBlock = match &response.lyrics {
        Some(lyrics) => lyrics,
        None => return Err(OfficialError::NoLyrics),
    };
    let plain: Vec<String> = spoken_lines(&lyrics.lines);
    let synced: Vec<String> = stamped_lines(&lyrics.lines);
    proof {
        lemma_timed_is_spoken(lyrics.lines.deep_view());
        assert(plain.deep_view().len() == plain@.len());
        assert(synced.deep_view().len() == synced@.len());
    }
    if plain.len() == 0 && synced.len() == 0 {
        return Err(OfficialError::EmptyLyrics);
    }
    Ok(
        LyricsCandidate {
            id: 0,
            name: "Spotify official".to_owned(),
            track_name: track.title.clone(),
            artist_name: track.artist.clone(),
            album_name: track.album.clone(),
            duration: CandidateDuration::Track(track.duration_ms),
            instrumental: false,
            plain_lyrics: join_texts(&plain, "\n"),
            synced_lyrics: join_texts(&synced, "\n"),
            lyrics_file: None,
        },
    )
}

} // verus!
