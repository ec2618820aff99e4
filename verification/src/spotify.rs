//! The playing track, as Spotify reports it over D-Bus.
use vstd::prelude::*;

use crate::digits::{decimal_text, parse_u64_text};
use crate::text::{join_texts, trim_text, words_of};

verus! {

pub const TRACK_ID_PATTERN: &'static str = r#"string "mpris:trackid"\s+variant\s+string "([^"]*)""#;

pub const URL_PATTERN: &'static str = r#"string "xesam:url"\s+variant\s+string "([^"]*)""#;

pub const ALBUM_PATTERN: &'static str = r#"string "xesam:album"\s+variant\s+string "([^"]*)""#;

pub const TITLE_PATTERN: &'static str = r#"string "xesam:title"\s+variant\s+string "([^"]*)""#;

pub const ARTIST_PATTERN: &'static str =
    r#"string "xesam:artist"\s+variant\s+array\s+\[\s+string "([^"]*)""#;

pub const DURATION_PATTERN: &'static str = r#"string "mpris:length"\s+variant\s+uint64\s+(\d+)"#;

pub const POSITION_PATTERN: &'static str = r#"int64\s+(\d+)"#;

pub const STATUS_PATTERN: &'static str = r#"variant\s+string "([^"]+)""#;

pub const TRACK_URI_PATTERN: &'static str = r"spotify:track:([A-Za-z0-9]+)";

pub const TRACK_ADDRESS_PATTERN: &'static str = r"https?://open\.spotify\.com/track/([A-Za-z0-9]+)";

pub const TRACK_PATH_PATTERN: &'static str = r".*/track/([A-Za-z0-9]+)$";

/// What the first group of the first match of a regular expression in a text
/// holds; nothing where the expression is not valid, has no match in the text,
/// or its first group takes no part in the match.
pub uninterp spec fn first_group(pattern: Seq<char>, text: Seq<char>) -> Option<Seq<char>>;

/// The text in lower case.
pub uninterp spec fn lower_case(text: Seq<char>) -> Seq<char>;

/// Matches a regular expression (`regex::Regex::new`, `Regex::captures`). The
/// contract claims of every expression that the first group of the first match
/// depends on the expression and the text alone. Of the expressions above it
/// claims what they mean: the group of the leftmost match, which for identifiers
/// and numbers takes as many characters as follow, for quoted texts those up to
/// the next quotation mark, and for the last expression those up to the end of
/// the text. Of numbers this is claimed only where no character outside ASCII
/// comes at once behind the digits or in their place: which of those count as
/// digits is left unsaid.
#[verifier::external_body]
fn capture_string(pattern: &str, text: &str) -> (r: Option<String>)
    ensures
        r.deep_view() == first_group(pattern@, text@),
        pattern@ == TRACK_ID_PATTERN@ ==> r.deep_view() == crate::reply::track_id_field(text@),
        pattern@ == URL_PATTERN@ ==> r.deep_view() == crate::reply::url_field(text@),
        pattern@ == ALBUM_PATTERN@ ==> r.deep_view() == crate::reply::album_field(text@),
        pattern@ == TITLE_PATTERN@ ==> r.deep_view() == crate::reply::title_field(text@),
        pattern@ == ARTIST_PATTERN@ ==> r.deep_view() == crate::reply::artist_field(text@),
        pattern@ == STATUS_PATTERN@ ==> r.deep_view() == crate::reply::status_field(text@),
        pattern@ == DURATION_PATTERN@ && crate::reply::digits_end_plainly(
            text@,
            crate::reply::duration_marks(),
        ) ==> r.deep_view() == crate::reply::first_digits(text@, crate::reply::duration_marks()),
        pattern@ == POSITION_PATTERN@ && crate::reply::digits_end_plainly(
            text@,
            crate::reply::position_marks(),
        ) ==> r.deep_view() == crate::reply::first_digits(text@, crate::reply::position_marks()),
        pattern@ == TRACK_URI_PATTERN@ ==> r.deep_view() == crate::identifier::uri_id(text@),
        pattern@ == TRACK_ADDRESS_PATTERN@ ==> r.deep_view() == crate::identifier::address_id(
            text@,
        ),
        pattern@ == TRACK_PATH_PATTERN@ ==> r.deep_view() == crate::identifier::path_id(text@),
{
    regex::Regex::new(pattern).ok()?.captures(text)?.get(1).map(|m| m.as_str().to_string())
}

/// Lower case (`str::to_lowercase`). The contract claims that the result depends
/// on the text alone, and that of a text of ASCII characters the capitals become
/// small letters and nothing else changes. What it leaves unsaid is what becomes
/// of other characters.
pub assume_specification[ str::to_lowercase ](s: &str) -> (r: String)
    ensures
        r@ == lower_case(s@),
        is_ascii(s@) ==> r@ == crate::text::ascii_folded(s@),
;

/// Whether a text is made of ASCII characters.
pub open spec fn is_ascii(s: Seq<char>) -> bool {
    forall|i: int| 0 <= i < s.len() ==> #[trigger] s[i] <= '\u{7f}'
}

/// A text in lower case.
pub open spec fn lowered(s: Seq<char>) -> Seq<char> {
    if is_ascii(s) {
        crate::text::ascii_folded(s)
    } else {
        lower_case(s)
    }
}

/// A track and how far it has played.
#[derive(Debug)]
pub struct TrackInfo {
    pub track_id: Option<String>,
    pub spotify_url: Option<String>,
    pub artist: String,
    pub title: String,
    pub album: String,
    pub duration_ms: u64,
    pub position_ms: u64,
    pub playback_status: String,
}

/// What a `TrackInfo` stands for.
#[verifier::ext_equal]
pub struct TrackModel {
    pub track_id: Option<Seq<char>>,
    pub spotify_url: Option<Seq<char>>,
    pub artist: Seq<char>,
    pub title: Seq<char>,
    pub album: Seq<char>,
    pub duration_ms: u64,
    pub position_ms: u64,
    pub playback_status: Seq<char>,
}

impl View for TrackInfo {
    type V = TrackModel;

    open spec fn view(&self) -> TrackModel {
        TrackModel {
            track_id: self.track_id.deep_view(),
            spotify_url: self.spotify_url.deep_view(),
            artist: self.artist@,
            title: self.title@,
            album: self.album@,
            duration_ms: self.duration_ms,
            position_ms: self.position_ms,
            playback_status: self.playback_status@,
        }
    }
}

impl DeepView for TrackInfo {
    type V = TrackModel;

    open spec fn deep_view(&self) -> TrackModel {
        self@
    }
}

/// A copy of a text that may be missing.
pub fn clone_option(s: &Option<String>) -> (r: Option<String>)
    ensures
        r.deep_view() == s.deep_view(),
{
    match s {
        Some(text) => Some(text.clone()),
        None => None,
    }
}

impl Clone for TrackInfo {
    fn clone(&self) -> (r: Self)
        ensures
            r@ == self@,
    {
        TrackInfo {
            track_id: clone_option(&self.track_id),
            spotify_url: clone_option(&self.spotify_url),
            artist: self.artist.clone(),
            title: self.title.clone(),
            album: self.album.clone(),
            duration_ms: self.duration_ms,
            position_ms: self.position_ms,
            playback_status: self.playback_status.clone(),
        }
    }
}

/// The Spotify identifier of a track: the one in its address, else the one in
/// its player identifier.
pub open spec fn spotify_id(t: TrackModel) -> Option<Seq<char>> {
    let from_url = match t.spotify_url {
        Some(url) => crate::identifier::track_id_in(url),
        None => None,
    };
    let from_id = match t.track_id {
        Some(id) => crate::identifier::track_id_in(id),
        None => None,
    };
    crate::identifier::either(from_url, from_id)
}

/// The words of a text, with one space between each two.
pub open spec fn collapsed(s: Seq<char>) -> Seq<char> {
    crate::text::join(crate::text::words(s), " "@)
}

/// A name without differences of case and spacing.
pub open spec fn normalized(s: Seq<char>) -> Seq<char> {
    collapsed(lowered(crate::text::trim(s)))
}

/// The key of a track that only its artist, title and length tell apart; the
/// two names are normalised.
pub open spec fn name_key(artist: Seq<char>, title: Seq<char>, duration_ms: u64) -> Seq<char> {
    artist + "|"@ + title + "|"@ + crate::digits::decimal(duration_ms as nat / 1000)
}

/// The key of a track, from its Spotify identifier, its player identifier, its
/// normalised names and its length.
pub open spec fn composed_key(
    spotify_id: Option<Seq<char>>,
    track_id: Option<Seq<char>>,
    artist: Seq<char>,
    title: Seq<char>,
    duration_ms: u64,
) -> Seq<char> {
    match spotify_id {
        Some(id) => "spotify:"@ + id,
        None => match track_id {
            Some(id) => id,
            None => name_key(artist, title, duration_ms),
        },
    }
}

/// The key under which the lyrics of a track are kept.
pub open spec fn key_of(t: TrackModel) -> Seq<char> {
    composed_key(
        spotify_id(t),
        t.track_id,
        normalized(t.artist),
        normalized(t.title),
        t.duration_ms,
    )
}

/// The plain key of a track, which takes no notice of its Spotify identifier.
pub open spec fn legacy_key_of(t: TrackModel) -> Seq<char> {
    composed_key(None, t.track_id, normalized(t.artist), normalized(t.title), t.duration_ms)
}

/// A track keeps its key while it plays on: the position, the playback status
/// and the album are no part of it, and of its length only whole seconds count.
pub proof fn law_key_stays_while_playing(t: TrackModel, later: TrackModel)
    requires
        later.track_id == t.track_id,
        later.spotify_url == t.spotify_url,
        later.artist == t.artist,
        later.title == t.title,
        later.duration_ms / 1000 == t.duration_ms / 1000,
    ensures
        key_of(later) == key_of(t),
        legacy_key_of(later) == legacy_key_of(t),
{
}

/// Two reports of one Spotify track have one key, whatever else they say.
pub proof fn law_same_spotify_track_same_key(a: TrackModel, b: TrackModel)
    requires
        spotify_id(a) is Some,
        spotify_id(a) == spotify_id(b),
    ensures
        key_of(a) == key_of(b),
{
}

/// Different Spotify tracks have different keys.
pub proof fn law_other_spotify_track_other_key(a: TrackModel, b: TrackModel)
    requires
        spotify_id(a) is Some,
        spotify_id(b) is Some,
        spotify_id(a) != spotify_id(b),
    ensures
        key_of(a) != key_of(b),
{
    let p = "spotify:"@;
    let x = spotify_id(a)->0;
    let y = spotify_id(b)->0;
    if p + x == p + y {
        assert((p + x).skip(p.len() as int) =~= x);
        assert((p + y).skip(p.len() as int) =~= y);
    }
}

/// The identifier in the address of a track goes before the one in its player
/// identifier, and is made of ASCII letters and digits of the address.
pub proof fn law_address_goes_first(t: TrackModel, address: Seq<char>)
    requires
        t.spotify_url == Some(address),
    ensures
        crate::identifier::track_id_in(address) matches Some(id) ==> {
            &&& spotify_id(t) == Some(id)
            &&& crate::identifier::is_id(id)
            &&& crate::identifier::is_part(id, address)
            &&& key_of(t) == "spotify:"@ + id
        },
{
    crate::identifier::law_track_id_is_part(address);
}

/// The three spellings of a Spotify track, as an address, as a URI and as a
/// path, give one key, whatever else is reported.
pub proof fn law_spellings_share_a_key(
    a: TrackModel,
    b: TrackModel,
    c: TrackModel,
    id: Seq<char>,
)
    requires
        crate::identifier::is_id(id),
        a.spotify_url == Some("https://open.spotify.com/track/"@ + id),
        b.spotify_url is None,
        b.track_id == Some("spotify:track:"@ + id),
        c.spotify_url is None,
        c.track_id == Some("/com/spotify/track/"@ + id),
    ensures
        key_of(a) == "spotify:"@ + id,
        key_of(b) == "spotify:"@ + id,
        key_of(c) == "spotify:"@ + id,
{
    crate::identifier::law_address_holds_id(id);
    crate::identifier::law_uri_holds_id(id);
    crate::identifier::law_path_holds_id(id);
}

/// Without a Spotify identifier the key is the plain one.
pub proof fn law_legacy_key_without_spotify_id(t: TrackModel)
    requires
        spotify_id(t) is None,
    ensures
        key_of(t) == legacy_key_of(t),
{
}

/// Spacing at both ends does not tell names apart.
pub proof fn law_normalized_ignores_outer_space(s: Seq<char>)
    ensures
        normalized(crate::text::trim(s)) == normalized(s),
{
    crate::text::lemma_trim_again(s);
}

/// Only the words of a name count, not the spacing between them; and a name
/// whose words are parted by single spaces stays as it is.
pub proof fn law_collapsed_keeps_words(s: Seq<char>)
    ensures
        crate::text::words(collapsed(s)) == crate::text::words(s),
        collapsed(collapsed(s)) == collapsed(s),
{
    crate::text::law_words_are_words(s);
    crate::text::law_joined_words_read_back(crate::text::words(s));
}

/// A name that has been normalised has no white space at either end.
proof fn lemma_normalized_is_trimmed(s: Seq<char>)
    ensures
        crate::text::trim(normalized(s)) == normalized(s),
{
    let parts = crate::text::words(lowered(crate::text::trim(s)));
    crate::text::law_words_are_words(lowered(crate::text::trim(s)));
    crate::text::lemma_joined_words_ends(parts);
    crate::text::lemma_trimmed_stays(normalized(s));
}

/// Normalising twice is normalising once, where lower case leaves the
/// normalised name as it is.
pub proof fn law_normalized_again_in_lower_case(s: Seq<char>)
    requires
        lowered(normalized(s)) == normalized(s),
    ensures
        normalized(normalized(s)) == normalized(s),
{
    lemma_normalized_is_trimmed(s);
    law_collapsed_keeps_words(lowered(crate::text::trim(s)));
}

/// Normalising a name of ASCII characters twice is normalising it once.
pub proof fn law_ascii_name_normalized_again(s: Seq<char>)
    requires
        is_ascii(s),
    ensures
        normalized(normalized(s)) == normalized(s),
{
    let t = crate::text::trim(s);
    crate::text::lemma_trim_start_shape(s);
    crate::text::lemma_trim_end_shape(crate::text::trim_start(s));
    assert forall|i: int| 0 <= i < t.len() implies #[trigger] t[i] <= '\u{7f}' by {
        let n = s.len() - crate::text::trim_start(s).len();
        assert(t[i] == s[i + n]);
    }
    let low = crate::text::ascii_folded(t);
    assert forall|i: int| 0 <= i < low.len() implies crate::text::is_small_ascii(
        #[trigger] low[i],
    ) by {
        assert(t[i] <= '\u{7f}');
    }
    crate::text::lemma_words_small(low);
    crate::text::lemma_join_small(crate::text::words(low));
    let n = normalized(s);
    assert forall|i: int| 0 <= i < n.len() implies #[trigger] n[i] <= '\u{7f}' by {
        assert(crate::text::is_small_ascii(n[i]));
    }
    assert forall|i: int| 0 <= i < n.len() implies crate::text::ascii_small(#[trigger] n[i])
        == n[i] by {
        assert(crate::text::is_small_ascii(n[i]));
    }
    assert(crate::text::ascii_folded(n) =~= n);
    law_normalized_again_in_lower_case(s);
}

/// The first of two texts that may be missing, the second where the first is.
pub fn first_given(first: Option<String>, second: Option<String>) -> (r: Option<String>)
    ensures
        r.deep_view() == crate::identifier::either(first.deep_view(), second.deep_view()),
{
    match first {
        Some(text) => Some(text),
        None => second,
    }
}

/// The identifier of a Spotify track that a text holds.
pub fn extract_spotify_track_id(value: &str) -> (r: Option<String>)
    ensures
        r.deep_view() == crate::identifier::track_id_in(value@),
{
    first_given(
        capture_string(TRACK_URI_PATTERN, value),
        first_given(
            capture_string(TRACK_ADDRESS_PATTERN, value),
            capture_string(TRACK_PATH_PATTERN, value),
        ),
    )
}

/// The words of a text, with one space between each two. An ideographic space
/// parts words as any other white space does.
pub fn collapse_words(s: &str) -> (r: String)
    ensures
        r@ == collapsed(s@),
{
    let words: Vec<String> = words_of(s);
    join_texts(&words, " ")
}

/// A name without differences of case and spacing.
pub fn normalize(input: &str) -> (r: String)
    ensures
        r@ == normalized(input@),
{
    let trimmed: String = trim_text(input);
    collapse_words(trimmed.as_str().to_lowercase().as_str())
}

/// The key of a track, from its Spotify identifier, its player identifier, its
/// normalised names and its length.
pub fn compose_key(
    spotify_id: Option<String>,
    track_id: &Option<String>,
    artist: &str,
    title: &str,
    duration_ms: u64,
) -> (r: String)
    ensures
        r@ == composed_key(
            spotify_id.deep_view(),
            track_id.deep_view(),
            artist@,
            title@,
            duration_ms,
        ),
{
    match spotify_id {
        Some(id) => {
            let mut key = "spotify:".to_owned();
            key.append(id.as_str());
            key
        },
        None => match track_id {
            Some(id) => id.clone(),
            None => {
                let mut key = artist.to_owned();
                key.append("|");
                key.append(title);
                key.append("|");
                key.append(decimal_text(duration_ms / 1000).as_str());
                key
            },
        },
    }
}

impl TrackInfo {
    /// The key under which the lyrics of the track are kept.
    pub fn cache_key(&self) -> (r: String)
        ensures
            r@ == key_of(self@),
    {
        compose_key(
            self.spotify_track_id(),
            &self.track_id,
            normalize(self.artist.as_str()).as_str(),
            normalize(self.title.as_str()).as_str(),
            self.duration_ms,
        )
    }

    /// The Spotify identifier of the track.
    pub fn spotify_track_id(&self) -> (r: Option<String>)
        ensures
            r.deep_view() == spotify_id(self@),
    {
        let from_url: Option<String> = match &self.spotify_url {
            Some(url) => extract_spotify_track_id(url.as_str()),
            None => None,
        };
        let from_id: Option<String> = match &self.track_id {
            Some(id) => extract_spotify_track_id(id.as_str()),
            None => None,
        };
        first_given(from_url, from_id)
    }

    /// The plain key of the track, which takes no notice of its Spotify
    /// identifier.
    pub fn legacy_track_key(&self) -> (r: String)
        ensures
            r@ == legacy_key_of(self@),
    {
        compose_key(
            None,
            &self.track_id,
            normalize(self.artist.as_str()).as_str(),
            normalize(self.title.as_str()).as_str(),
            self.duration_ms,
        )
    }
}

/// What the player is doing.
#[derive(Debug)]
pub struct SpotifySnapshot {
    pub track: Option<TrackInfo>,
}

impl Clone for SpotifySnapshot {
    fn clone(&self) -> (r: Self)
        ensures
            r.track.deep_view() == self.track.deep_view(),
    {
        SpotifySnapshot {
            track: match &self.track {
                Some(track) => Some(track.clone()),
                None => None,
            },
        }
    }
}

/// The fields that the player's replies hold. Times are in microseconds.
#[derive(Debug)]
pub struct SnapshotFields {
    pub track_id: Option<String>,
    pub spotify_url: Option<String>,
    pub artist: Option<String>,
    pub title: Option<String>,
    pub album: Option<String>,
    pub duration_us: Option<u64>,
    pub position_us: Option<u64>,
    pub playback_status: Option<String>,
}

/// What `SnapshotFields` stand for.
#[verifier::ext_equal]
pub struct FieldsModel {
    pub track_id: Option<Seq<char>>,
    pub spotify_url: Option<Seq<char>>,
    pub artist: Option<Seq<char>>,
    pub title: Option<Seq<char>>,
    pub album: Option<Seq<char>>,
    pub duration_us: Option<u64>,
    pub position_us: Option<u64>,
    pub playback_status: Option<Seq<char>>,
}

impl View for SnapshotFields {
    type V = FieldsModel;

    open spec fn view(&self) -> FieldsModel {
        FieldsModel {
            track_id: self.track_id.deep_view(),
            spotify_url: self.spotify_url.deep_view(),
            artist: self.artist.deep_view(),
            title: self.title.deep_view(),
            album: self.album.deep_view(),
            duration_us: self.duration_us,
            position_us: self.position_us,
            playback_status: self.playback_status.deep_view(),
        }
    }
}

/// Why the player's replies cannot be read.
#[derive(Debug, Clone, Copy, PartialEq, Eq, Structural)]
pub enum SnapshotError {
    NoPlaybackStatus,
}

impl SnapshotError {
    /// The text that is shown for the error.
    pub fn message(self) -> (r: String)
        ensures
            r@ == "failed to parse playback status"@,
    {
        "failed to parse playback status".to_owned()
    }
}

/// The number that digits, where there are any, stand for.
pub open spec fn number_of(digits: Option<Seq<char>>) -> Option<u64> {
    match digits {
        Some(text) => crate::digits::u64_value(text),
        None => None,
    }
}

/// The digits behind the first of the marks in a reply that have any; those
/// that the expression finds where digits of another script may be among them.
pub open spec fn digits_in(
    reply: Seq<char>,
    marks: Seq<Seq<char>>,
    pattern: Seq<char>,
) -> Option<Seq<char>> {
    if crate::reply::digits_end_plainly(reply, marks) {
        crate::reply::first_digits(reply, marks)
    } else {
        first_group(pattern, reply)
    }
}

/// The fields in the replies for the metadata, the playback status and the
/// position.
pub open spec fn fields_in(
    metadata: Seq<char>,
    playback_status: Seq<char>,
    position: Seq<char>,
) -> FieldsModel {
    FieldsModel {
        track_id: crate::reply::track_id_field(metadata),
        spotify_url: crate::reply::url_field(metadata),
        artist: crate::reply::artist_field(metadata),
        title: crate::reply::title_field(metadata),
        album: crate::reply::album_field(metadata),
        duration_us: number_of(
            digits_in(metadata, crate::reply::duration_marks(), DURATION_PATTERN@),
        ),
        position_us: number_of(
            digits_in(position, crate::reply::position_marks(), POSITION_PATTERN@),
        ),
        playback_status: crate::reply::status_field(playback_status),
    }
}

/// A text that may be missing, as one that may be empty.
pub open spec fn or_empty(s: Option<Seq<char>>) -> Seq<char> {
    match s {
        Some(text) => text,
        None => Seq::empty(),
    }
}

/// A time in microseconds that may be missing, in whole milliseconds.
pub open spec fn or_zero_millis(us: Option<u64>) -> u64 {
    match us {
        Some(n) => n / 1000,
        None => 0,
    }
}

/// The track that the fields describe; none where artist and title are empty.
pub open spec fn track_in(f: FieldsModel) -> Option<TrackModel> {
    if or_empty(f.artist).len() == 0 && or_empty(f.title).len() == 0 {
        None
    } else {
        Some(
            TrackModel {
                track_id: f.track_id,
                spotify_url: f.spotify_url,
                artist: or_empty(f.artist),
                title: or_empty(f.title),
                album: or_empty(f.album),
                duration_ms: or_zero_millis(f.duration_us),
                position_ms: or_zero_millis(f.position_us),
                playback_status: or_empty(f.playback_status),
            },
        )
    }
}

/// What the replies mean: without a playback status they cannot be read.
pub open spec fn snapshot_in(f: FieldsModel) -> Result<Option<TrackModel>, SnapshotError> {
    if f.playback_status is None {
        Err(SnapshotError::NoPlaybackStatus)
    } else {
        Ok(track_in(f))
    }
}

/// Whether a field, where it is there, stands in a reply as it is.
pub open spec fn part_of(field: Option<Seq<char>>, reply: Seq<char>) -> bool {
    field matches Some(text) ==> crate::identifier::is_part(text, reply)
}

/// Every text among the fields stands in its reply as it is, and a playback
/// status is not empty.
pub proof fn law_fields_are_parts(
    metadata: Seq<char>,
    playback_status: Seq<char>,
    position: Seq<char>,
)
    ensures
        ({
            let f = fields_in(metadata, playback_status, position);
            &&& part_of(f.track_id, metadata)
            &&& part_of(f.spotify_url, metadata)
            &&& part_of(f.artist, metadata)
            &&& part_of(f.title, metadata)
            &&& part_of(f.album, metadata)
            &&& part_of(f.playback_status, playback_status)
            &&& f.playback_status matches Some(status) ==> status.len() > 0
        }),
{
    crate::reply::law_text_is_part(
        metadata,
        crate::reply::text_entry("string \"mpris:trackid\""@),
        0,
    );
    crate::reply::law_text_is_part(
        metadata,
        crate::reply::text_entry("string \"xesam:url\""@),
        0,
    );
    crate::reply::law_text_is_part(
        metadata,
        crate::reply::text_entry("string \"xesam:album\""@),
        0,
    );
    crate::reply::law_text_is_part(
        metadata,
        crate::reply::text_entry("string \"xesam:title\""@),
        0,
    );
    crate::reply::law_text_is_part(
        metadata,
        crate::reply::list_entry("string \"xesam:artist\""@),
        0,
    );
    crate::reply::law_text_is_part(playback_status, seq!["variant"@, "string \""@], 1);
}

/// The number that digits, where there are any, stand for.
pub fn parse_number(digits: Option<String>) -> (r: Option<u64>)
    ensures
        r == number_of(digits.deep_view()),
{
    match digits {
        Some(text) => parse_u64_text(text.as_str()),
        None => None,
    }
}

/// Reads the fields of the player's replies.
pub fn read_fields(metadata: &str, playback_status: &str, position: &str) -> (r: SnapshotFields)
    ensures
        r@ == fields_in(metadata@, playback_status@, position@),
{
    SnapshotFields {
        track_id: capture_string(TRACK_ID_PATTERN, metadata),
        spotify_url: capture_string(URL_PATTERN, metadata),
        artist: capture_string(ARTIST_PATTERN, metadata),
        title: capture_string(TITLE_PATTERN, metadata),
        album: capture_string(ALBUM_PATTERN, metadata),
        duration_us: parse_number(capture_string(DURATION_PATTERN, metadata)),
        position_us: parse_number(capture_string(POSITION_PATTERN, position)),
        playback_status: capture_string(STATUS_PATTERN, playback_status),
    }
}

fn text_or_empty(s: Option<String>) -> (r: String)
    ensures
        r@ == or_empty(s.deep_view()),
{
    match s {
        Some(text) => text,
        None => String::new(),
    }
}

fn millis_or_zero(us: Option<u64>) -> (r: u64)
    ensures
        r == or_zero_millis(us),
{
    match us {
        Some(n) => n / 1000,
        None => 0,
    }
}

/// What the fields of the player's replies mean.
pub fn snapshot_of(fields: SnapshotFields) -> (r: Result<SpotifySnapshot, SnapshotError>)
    ensures
        match r {
            Ok(snapshot) => snapshot_in(fields@) == Ok::<Option<TrackModel>, SnapshotError>(
                snapshot.track.deep_view(),
            ),
            Err(e) => snapshot_in(fields@) == Err::<Option<TrackModel>, SnapshotError>(e),
        },
{
    let artist: String = text_or_empty(fields.artist);
    let title: String = text_or_empty(fields.title);
    let album: String = text_or_empty(fields.album);
    let duration_ms: u64 = millis_or_zero(fields.duration_us);
    let position_ms: u64 = millis_or_zero(fields.position_us);
    let playback_status: String = match fields.playback_status {
        Some(status) => status,
        None => return Err(SnapshotError::NoPlaybackStatus),
    };
    if artist.as_str().is_empty() && title.as_str().is_empty() {
        return Ok(SpotifySnapshot { track: None });
    }
    Ok(
        SpotifySnapshot {
            track: Some(
                TrackInfo {
                    track_id: fields.track_id,
                    spotify_url: fields.spotify_url,
                    artist,
                    title,
                    album,
                    duration_ms,
                    position_ms,
                    playback_status,
                },
            ),
        },
    )
}

/// Reads the player's replies for its metadata, its playback status and its
/// position.
pub fn read_snapshot(metadata: &str, playback_status: &str, position: &str) -> (r: Result<
    SpotifySnapshot,
    SnapshotError,
>)
    ensures
        match r {
            Ok(snapshot) => snapshot_in(fields_in(metadata@, playback_status@, position@)) == Ok::<
                Option<TrackModel>,
                SnapshotError,
            >(snapshot.track.deep_view()),
            Err(e) => snapshot_in(fields_in(metadata@, playback_status@, position@)) == Err::<
                Option<TrackModel>,
                SnapshotError,
            >(e),
        },
{
    snapshot_of(read_fields(metadata, playback_status, position))
}

/// Every track of a snapshot has a name, and its times are microseconds in
/// whole milliseconds.
pub proof fn law_snapshot_tracks(f: FieldsModel)
    ensures
        snapshot_in(f) matches Ok(Some(t)) ==> {
            &&& t.artist.len() > 0 || t.title.len() > 0
            &&& t.duration_ms <= u64::MAX / 1000
            &&& t.position_ms <= u64::MAX / 1000
        },
{
}

/// The arguments of `dbus-send` that ask the player for a property.
pub open spec fn dbus_arguments(property: Seq<char>) -> Seq<Seq<char>> {
    seq![
        "--session"@,
        "--dest=org.mpris.MediaPlayer2.spotify"@,
        "--type=method_call"@,
        "--print-reply"@,
        "/org/mpris/MediaPlayer2"@,
        "org.freedesktop.DBus.Properties.Get"@,
        "string:org.mpris.MediaPlayer2.Player"@,
        "string:"@ + property,
    ]
}

/// The arguments of `dbus-send` that ask the player for a property.
pub fn property_request(property: &str) -> (r: Vec<String>)
    ensures
        r.deep_view() == dbus_arguments(property@),
{
    let mut name = "string:".to_owned();
    name.append(property);
    let mut args: Vec<String> = Vec::new();
    args.push("--session".to_owned());
    args.push("--dest=org.mpris.MediaPlayer2.spotify".to_owned());
    args.push("--type=method_call".to_owned());
    args.push("--print-reply".to_owned());
    args.push("/org/mpris/MediaPlayer2".to_owned());
    args.push("org.freedesktop.DBus.Properties.Get".to_owned());
    args.push("string:org.mpris.MediaPlayer2.Player".to_owned());
    args.push(name);
    assert(args.deep_view() =~= dbus_arguments(property@));
    args
}

} // verus!
