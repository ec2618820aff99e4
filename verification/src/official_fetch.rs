//! The course of a fetch from Spotify: home page, secret, token, lyrics.
use vstd::prelude::*;

use crate::lyrics::LyricsCandidate;
use crate::spotify::TrackInfo;
use crate::spotify_official::{
    access_token, check_home, check_lyrics_reply, check_token_reply, common_headers,
    lyrics_address, lyrics_headers, lyrics_query, response_to_candidate, token_query,
    OfficialError, OfficialFault, SpotifyLyricsResponse, SECRET_CIPHER_DICT_URL, SPOTIFY_HOME,
    TOKEN_URL,
};
use crate::totp::Totp;

verus! {

/// A request to a server.
#[derive(Debug)]
pub struct Request {
    pub url: String,
    pub query: Vec<(String, String)>,
    pub headers: Vec<(String, String)>,
    /// Whether the request belongs to the session with the cookie.
    pub in_session: bool,
}

/// What a `Request` stands for.
#[verifier::ext_equal]
pub struct RequestModel {
    pub url: Seq<char>,
    pub query: Seq<(Seq<char>, Seq<char>)>,
    pub headers: Seq<(Seq<char>, Seq<char>)>,
    pub in_session: bool,
}

impl View for Request {
    type V = RequestModel;

    open spec fn view(&self) -> RequestModel {
        RequestModel {
            url: self.url@,
            query: self.query.deep_view(),
            headers: self.headers.deep_view(),
            in_session: self.in_session,
        }
    }
}

/// What a fetch waits for.
#[derive(Debug, Clone, Copy, PartialEq, Eq, Structural)]
pub enum Stage {
    Home,
    Secret,
    Token,
    Lyrics,
}

/// What a server answers.
#[derive(Debug)]
pub enum Reply {
    /// Nothing that can be read; the text says why.
    Unanswered(String),
    Home { status: u16, reason: String },
    /// The dictionary of secrets, at a time in milliseconds.
    Secret { status: u16, reason: String, dictionary: Vec<u8>, now_ms: u64 },
    Token { status: u16, reason: String, body: String, token: Option<String> },
    Lyrics { status: u16, reason: String, response: SpotifyLyricsResponse },
}

/// What a `Reply` stands for.
#[verifier::ext_equal]
pub enum ReplyModel {
    Unanswered(Seq<char>),
    Home { status: u16, reason: Seq<char> },
    Secret { status: u16, reason: Seq<char>, dictionary: Seq<u8>, now_ms: u64 },
    Token { status: u16, reason: Seq<char>, body: Seq<char>, token: Option<Seq<char>> },
    Lyrics {
        status: u16,
        reason: Seq<char>,
        lyrics: Option<Seq<crate::spotify_official::ServedLine>>,
    },
}

impl View for Reply {
    type V = ReplyModel;

    open spec fn view(&self) -> ReplyModel {
        match self {
            Reply::Unanswered(text) => ReplyModel::Unanswered(text@),
            Reply::Home { status, reason } => ReplyModel::Home {
                status: *status,
                reason: reason@,
            },
            Reply::Secret { status, reason, dictionary, now_ms } => ReplyModel::Secret {
                status: *status,
                reason: reason@,
                dictionary: dictionary@,
                now_ms: *now_ms,
            },
            Reply::Token { status, reason, body, token } => ReplyModel::Token {
                status: *status,
                reason: reason@,
                body: body@,
                token: token.deep_view(),
            },
            Reply::Lyrics { status, reason, response } => ReplyModel::Lyrics {
                status: *status,
                reason: reason@,
                lyrics: response.lyrics.deep_view(),
            },
        }
    }
}

/// Whether a reply is one to the request that a fetch waits for.
pub open spec fn answers(stage: Stage, reply: ReplyModel) -> bool {
    match reply {
        ReplyModel::Unanswered(_) => true,
        ReplyModel::Home { .. } => stage == Stage::Home,
        ReplyModel::Secret { .. } => stage == Stage::Secret,
        ReplyModel::Token { .. } => stage == Stage::Token,
        ReplyModel::Lyrics { .. } => stage == Stage::Lyrics,
    }
}

/// What a fetch does next.
#[derive(Debug)]
pub enum Step {
    /// Sends a request and waits for its reply.
    Ask(Stage, Request),
    /// Ends with lyrics.
    Done(LyricsCandidate),
    /// Ends with an error.
    Failed(OfficialError),
}

/// What a `Step` stands for.
#[verifier::ext_equal]
pub enum StepModel {
    Ask(Stage, RequestModel),
    Done(crate::lyrics::CandidateModel),
    Failed(OfficialFault),
}

impl View for Step {
    type V = StepModel;

    open spec fn view(&self) -> StepModel {
        match self {
            Step::Ask(stage, request) => StepModel::Ask(*stage, request@),
            Step::Done(candidate) => StepModel::Done(candidate@),
            Step::Failed(error) => StepModel::Failed(error@),
        }
    }
}

/// The request for the home page, which opens the session.
pub open spec fn home_request() -> RequestModel {
    RequestModel {
        url: SPOTIFY_HOME@,
        query: Seq::empty(),
        headers: crate::spotify_official::common_headers_of(),
        in_session: true,
    }
}

/// The request for the dictionary of secrets.
pub open spec fn secret_request() -> RequestModel {
    RequestModel {
        url: SECRET_CIPHER_DICT_URL@,
        query: Seq::empty(),
        headers: Seq::empty(),
        in_session: false,
    }
}

/// The request for a token, with a one-time code.
pub open spec fn token_request(code: Seq<char>, version: Seq<char>) -> RequestModel {
    RequestModel {
        url: TOKEN_URL@,
        query: crate::spotify_official::token_query_of(code, version),
        headers: crate::spotify_official::common_headers_of(),
        in_session: true,
    }
}

/// The request for the lyrics of a track, with a token.
pub open spec fn lyrics_request(track_id: Seq<char>, token: Seq<char>) -> RequestModel {
    RequestModel {
        url: crate::spotify_official::LYRICS_URL_PREFIX@ + track_id,
        query: seq![("format"@, "json"@), ("market"@, "from_token"@)],
        headers: crate::spotify_official::lyrics_headers_of(token),
        in_session: true,
    }
}

/// The one-time code of six digits, new every thirty seconds, for a secret.
pub open spec fn code_for(secret: Seq<u8>, now_ms: u64) -> Seq<char> {
    crate::totp::code_of_hash(
        crate::totp::hmac_sha1_of(secret, crate::totp::be_bytes(now_ms / 1000 / 30)),
        6,
    )
}

/// What a fetch for a track does after a reply.
pub open spec fn step_after(
    track: crate::spotify::TrackModel,
    track_id: Seq<char>,
    reply: ReplyModel,
) -> StepModel {
    match reply {
        ReplyModel::Unanswered(text) => StepModel::Failed(OfficialFault::Unanswered(text)),
        ReplyModel::Home { status, reason } => if crate::spotify_official::is_success(status) {
            StepModel::Ask(Stage::Secret, secret_request())
        } else {
            StepModel::Failed(OfficialFault::HomeRefused(reason))
        },
        ReplyModel::Secret { status, reason, dictionary, now_ms } => match crate::totp::secret_of_reply(
            status,
            reason,
            dictionary,
        ) {
            Err(fault) => StepModel::Failed(fault),
            Ok((version, secret)) => StepModel::Ask(
                Stage::Token,
                token_request(code_for(secret, now_ms), version),
            ),
        },
        ReplyModel::Token { status, reason, body, token } => if !crate::spotify_official::is_success(
            status,
        ) {
            StepModel::Failed(OfficialFault::TokenRefused(reason, body))
        } else {
            match token {
                None => StepModel::Failed(OfficialFault::NoToken),
                Some(text) => StepModel::Ask(Stage::Lyrics, lyrics_request(track_id, text)),
            }
        },
        ReplyModel::Lyrics { status, reason, lyrics } => if !crate::spotify_official::is_success(
            status,
        ) {
            StepModel::Failed(OfficialFault::LyricsRefused(reason))
        } else {
            match crate::spotify_official::candidate_of_response(track, lyrics) {
                Ok(candidate) => StepModel::Done(candidate),
                Err(fault) => StepModel::Failed(fault),
            }
        },
    }
}

/// How many replies a fetch still waits for.
pub open spec fn replies_left(stage: Stage) -> nat {
    match stage {
        Stage::Home => 4,
        Stage::Secret => 3,
        Stage::Token => 2,
        Stage::Lyrics => 1,
    }
}

/// A fetch ends: every request brings it nearer to its end.
pub proof fn law_fetch_ends(
    track: crate::spotify::TrackModel,
    track_id: Seq<char>,
    stage: Stage,
    reply: ReplyModel,
)
    requires
        answers(stage, reply),
    ensures
        step_after(track, track_id, reply) matches StepModel::Ask(next, _) ==> replies_left(next)
            + 1 == replies_left(stage),
        stage == Stage::Lyrics ==> !(step_after(track, track_id, reply) is Ask),
{
}

/// Only the last reply gives lyrics, and no reply of a server that refuses is
/// followed by a request.
pub proof fn law_refused_fetch_fails(
    track: crate::spotify::TrackModel,
    track_id: Seq<char>,
    stage: Stage,
    reply: ReplyModel,
)
    requires
        answers(stage, reply),
    ensures
        step_after(track, track_id, reply) is Done ==> stage == Stage::Lyrics,
        match reply {
            ReplyModel::Unanswered(_) => true,
            ReplyModel::Home { status, .. } => !crate::spotify_official::is_success(status),
            ReplyModel::Secret { status, .. } => !crate::spotify_official::is_success(status),
            ReplyModel::Token { status, .. } => !crate::spotify_official::is_success(status),
            ReplyModel::Lyrics { status, .. } => !crate::spotify_official::is_success(status),
        } ==> step_after(track, track_id, reply) is Failed,
{
}

/// The first step of a fetch.
pub fn first_step() -> (r: Step)
    ensures
        r@ == StepModel::Ask(Stage::Home, home_request()),
{
    let request = Request {
        url: SPOTIFY_HOME.to_owned(),
        query: Vec::new(),
        headers: common_headers(),
        in_session: true,
    };
    assert(request@ =~= home_request());
    Step::Ask(Stage::Home, request)
}

/// The step after the reply for the dictionary of secrets.
fn token_step(status: u16, reason: &str, body: &[u8], now_ms: u64) -> (r: Step)
    ensures
        r@ == match crate::totp::secret_of_reply(status, reason@, body@) {
            Err(fault) => StepModel::Failed(fault),
            Ok((version, secret)) => StepModel::Ask(
                Stage::Token,
                token_request(code_for(secret, now_ms), version),
            ),
        },
{
    let totp: Totp = match Totp::new(status, reason, body) {
        Ok(totp) => totp,
        Err(e) => return Step::Failed(e),
    };
    let code: String = match totp.generate(now_ms) {
        Ok(code) => code,
        Err(e) => return Step::Failed(e),
    };
    assert(code@ == code_for(totp.secret@, now_ms));
    Step::Ask(
        Stage::Token,
        Request {
            url: TOKEN_URL.to_owned(),
            query: token_query(code.as_str(), totp.version.as_str()),
            headers: common_headers(),
            in_session: true,
        },
    )
}

/// What a fetch for a track does after a reply.
pub fn next_step(track: &TrackInfo, track_id: &str, reply: Reply) -> (r: Step)
    ensures
        r@ == step_after(track@, track_id@, reply@),
{
    match reply {
        Reply::Unanswered(text) => Step::Failed(OfficialError::Unanswered(text)),
        Reply::Home { status, reason } => match check_home(status, reason.as_str()) {
            Ok(()) => {
                let request = Request {
                    url: SECRET_CIPHER_DICT_URL.to_owned(),
                    query: Vec::new(),
                    headers: Vec::new(),
                    in_session: false,
                };
                assert(request@ =~= secret_request());
                Step::Ask(Stage::Secret, request)
            },
            Err(e) => Step::Failed(e),
        },
        Reply::Secret { status, reason, dictionary, now_ms } => token_step(
            status,
            reason.as_str(),
            dictionary.as_slice(),
            now_ms,
        ),
        Reply::Token { status, reason, body, token } => match check_token_reply(
            status,
            reason.as_str(),
            body.as_str(),
        ) {
            Ok(()) => match access_token(token) {
                Ok(text) => Step::Ask(
                    Stage::Lyrics,
                    Request {
                        url: lyrics_address(track_id),
                        query: lyrics_query(),
                        headers: lyrics_headers(text.as_str()),
                        in_session: true,
                    },
                ),
                Err(e) => Step::Failed(e),
            },
            Err(e) => Step::Failed(e),
        },
        Reply::Lyrics { status, reason, response } => match check_lyrics_reply(
            status,
            reason.as_str(),
        ) {
            Ok(()) => match response_to_candidate(track, &response) {
                Ok(candidate) => Step::Done(candidate),
                Err(e) => Step::Failed(e),
            },
            Err(e) => Step::Failed(e),
        },
    }
}

} // verus!
