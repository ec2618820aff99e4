//! What holds of a fetch from Spotify: its one-time codes and its requests.
use vstd::prelude::*;

use crate::official_fetch::{ReplyModel, Stage, StepModel};
use crate::spotify::TrackModel;
use crate::spotify_official::{OfficialFault, ServedLine};
use crate::totp::Totp;

verus! {

/// A code of a secret stands for the byte that the mask of its place makes it,
/// and for none only where it is no integer or none of a byte's size.
pub proof fn law_code_is_a_masked_byte(index: nat, raw: i64)
    ensures
        crate::totp::code_byte(index, None) == Err::<u8, OfficialFault>(
            OfficialFault::SecretNotAnInteger,
        ),
        0 <= raw <= 255 ==> (crate::totp::code_byte(index, Some(raw)) matches Ok(b) && (b as i64)
            ^ ((index % 33 + 9) as i64) == raw),
        raw < 0 || raw > 255 ==> crate::totp::code_byte(index, Some(raw)) == Err::<
            u8,
            OfficialFault,
        >(OfficialFault::SecretOutOfRange),
{
    let k = (index % 33 + 9) as i64;
    assert(0 <= k < 64);
    assert(0 <= raw <= 255 ==> 0 <= raw ^ k <= 255) by (bit_vector)
        requires
            0 <= k < 64,
    ;
    assert(raw < 0 || raw > 255 ==> raw ^ k < 0 || raw ^ k > 255) by (bit_vector)
        requires
            0 <= k < 64,
    ;
    assert((raw ^ k) ^ k == raw) by (bit_vector);
}

/// Every code of a secret gives its own byte, in order, and the first one that
/// gives none decides the error.
pub proof fn law_every_code_gives_its_byte(codes: Seq<Option<i64>>)
    ensures
        match crate::totp::code_bytes(codes) {
            Ok(bytes) => bytes.len() == codes.len() && forall|i: int|
                0 <= i < codes.len() ==> crate::totp::code_byte(i as nat, #[trigger] codes[i])
                    == Ok::<u8, OfficialFault>(bytes[i]),
            Err(e) => exists|i: int|
                {
                    &&& 0 <= i < codes.len()
                    &&& crate::totp::code_byte(i as nat, #[trigger] codes[i]) == Err::<
                        u8,
                        OfficialFault,
                    >(e)
                    &&& forall|j: int|
                        0 <= j < i ==> crate::totp::code_byte(j as nat, #[trigger] codes[j]) is Ok
                },
        },
    decreases codes.len(),
{
    if codes.len() > 0 {
        let rest = codes.drop_last();
        let n = codes.len() - 1;
        law_every_code_gives_its_byte(rest);
        match crate::totp::code_bytes(rest) {
            Ok(bytes) => {
                assert forall|j: int| 0 <= j < n implies crate::totp::code_byte(
                    j as nat,
                    #[trigger] codes[j],
                ) == Ok::<u8, OfficialFault>(bytes[j]) by {
                    assert(rest[j] == codes[j]);
                }
                assert(codes[n] == codes.last());
            },
            Err(e) => {
                let i = choose|i: int|
                    {
                        &&& 0 <= i < rest.len()
                        &&& crate::totp::code_byte(i as nat, #[trigger] rest[i]) == Err::<
                            u8,
                            OfficialFault,
                        >(e)
                        &&& forall|j: int|
                            0 <= j < i ==> crate::totp::code_byte(j as nat, #[trigger] rest[j])
                                is Ok
                    };
                assert(codes[i] == rest[i]);
                assert forall|j: int| 0 <= j < i implies crate::totp::code_byte(
                    j as nat,
                    #[trigger] codes[j],
                ) is Ok by {
                    assert(rest[j] == codes[j]);
                }
            },
        }
    }
}

/// The key is made of the numerals of the bytes, one after the other, and
/// nothing between them.
pub proof fn law_numerals_follow_each_other(a: Seq<u8>, b: Seq<u8>, n: u8)
    ensures
        crate::totp::numerals(a + b) == crate::totp::numerals(a) + crate::totp::numerals(b),
        crate::totp::numerals(seq![n]).len() == crate::digits::decimal(n as nat).len(),
        forall|i: int|
            0 <= i < crate::totp::numerals(seq![n]).len() ==> #[trigger] crate::totp::numerals(
                seq![n],
            )[i] == crate::digits::decimal(n as nat)[i] as u8,
    decreases b.len(),
{
    assert(seq![n].drop_last() =~= Seq::<u8>::empty());
    assert(crate::totp::numerals(Seq::<u8>::empty()) =~= Seq::<u8>::empty());
    assert(crate::totp::numerals(seq![n]) =~= crate::totp::ascii_bytes(
        crate::digits::decimal(n as nat),
    ));
    if b.len() == 0 {
        assert(a + b =~= a);
        assert(crate::totp::numerals(a) + crate::totp::numerals(b) =~= crate::totp::numerals(a));
    } else {
        law_numerals_follow_each_other(a, b.drop_last(), n);
        assert((a + b).drop_last() =~= a + b.drop_last());
        assert((a + b).last() == b.last());
        assert(crate::totp::numerals(a + b) =~= crate::totp::numerals(a)
            + crate::totp::numerals(b));
    }
}

/// The eight bytes of a number make it up again, the highest first.
pub proof fn law_bytes_make_up_the_number(n: u64)
    ensures
        crate::totp::be_bytes(n).len() == 8,
        crate::totp::be_bytes(n).fold_left(0int, |sum: int, b: u8| 256 * sum + b) == n,
{
    let s = crate::totp::be_bytes(n);
    let f = |sum: int, b: u8| 256 * sum + b;
    lemma_fold_step(s, f, 8);
    let s7 = s.take(7);
    lemma_fold_step(s7, f, 7);
    let s6 = s7.take(6);
    lemma_fold_step(s6, f, 6);
    let s5 = s6.take(5);
    lemma_fold_step(s5, f, 5);
    let s4 = s5.take(4);
    lemma_fold_step(s4, f, 4);
    let s3 = s4.take(3);
    lemma_fold_step(s3, f, 3);
    let s2 = s3.take(2);
    lemma_fold_step(s2, f, 2);
    let s1 = s2.take(1);
    lemma_fold_step(s1, f, 1);
    let s0 = s1.take(0);
    assert(s0.fold_left(0int, f) == 0) by {
        reveal_with_fuel(Seq::fold_left, 1);
    }
    lemma_upper(n);
}

proof fn lemma_fold_step(s: Seq<u8>, f: spec_fn(int, u8) -> int, n: nat)
    requires
        s.len() == n,
        n > 0,
    ensures
        s.fold_left(0int, f) == f(s.take(n - 1).fold_left(0int, f), s[n - 1]),
{
    reveal_with_fuel(Seq::fold_left, 2);
    assert(s.drop_last() =~= s.take(n - 1));
}

proof fn lemma_higher_digit(n: int, unit: int)
    requires
        0 <= n,
        0 < unit,
    ensures
        n / unit == 256 * (n / (unit * 256)) + n / unit % 256,
{
    vstd::arithmetic::div_mod::lemma_div_denominator(n, unit, 256);
    vstd::arithmetic::div_mod::lemma_fundamental_div_mod(n / unit, 256);
}

proof fn lemma_upper(n: u64)
    ensures
        n / 0x100_0000_0000_0000 < 256,
        n / 0x1_0000_0000_0000 == 256 * (n / 0x100_0000_0000_0000) + n / 0x1_0000_0000_0000 % 256,
        n / 0x100_0000_0000 == 256 * (n / 0x1_0000_0000_0000) + n / 0x100_0000_0000 % 256,
        n / 0x1_0000_0000 == 256 * (n / 0x100_0000_0000) + n / 0x1_0000_0000 % 256,
        n / 0x100_0000 == 256 * (n / 0x1_0000_0000) + n / 0x100_0000 % 256,
        n / 0x1_0000 == 256 * (n / 0x100_0000) + n / 0x1_0000 % 256,
        n / 0x100 == 256 * (n / 0x1_0000) + n / 0x100 % 256,
        n == 256 * (n / 0x100) + n % 256,
{
    lemma_higher_digit(n as int, 0x1_0000_0000_0000);
    lemma_higher_digit(n as int, 0x100_0000_0000);
    lemma_higher_digit(n as int, 0x1_0000_0000);
    lemma_higher_digit(n as int, 0x100_0000);
    lemma_higher_digit(n as int, 0x1_0000);
    lemma_higher_digit(n as int, 0x100);
}

/// The number that a hash holds is that of the four bytes at the place that its
/// last four bits name, without the highest bit.
pub proof fn law_hash_holds_its_number(hash: Seq<u8>)
    requires
        hash.len() == 20,
    ensures
        crate::totp::truncated(hash) < 0x8000_0000,
        ({
            let o = hash[19] as int % 16;
            let whole = 256 * (256 * (256 * hash[o] + hash[o + 1]) + hash[o + 2]) + hash[o + 3];
            &&& o + 3 < 20
            &&& whole % 0x8000_0000 == crate::totp::truncated(hash)
        }),
{
    let o = hash[19] as int % 16;
    let top = hash[o] as int / 128;
    let whole = 256 * (256 * (256 * hash[o] + hash[o + 1]) + hash[o + 2]) + hash[o + 3];
    assert(hash[o] == 128 * top + hash[o] % 128);
    assert(whole == 0x8000_0000 * top + crate::totp::truncated(hash));
}

/// A code of six digits is the number of the hash but for its millions, written
/// with six digits; it is that of the thirty seconds in which the time is, and
/// the one that a generator for the secret gives.
pub proof fn law_code_is_the_number_of_its_half_minute(totp: Totp, secret: Seq<u8>, now_ms: u64)
    requires
        totp.secret@ == secret,
        totp.period == 30,
        totp.digits == 6,
    ensures
        ({
            let code = crate::official_fetch::code_for(secret, now_ms);
            let counter = (now_ms as nat / 30_000) as u64;
            let hash = crate::totp::hmac_sha1_of(secret, crate::totp::be_bytes(counter));
            &&& code.len() == 6
            &&& crate::digits::all_digits(code)
            &&& crate::digits::value(code) == crate::totp::truncated(hash) % 1_000_000
            &&& code == totp.code_at(now_ms)
        }),
{
    let counter = (now_ms as nat / 30_000) as u64;
    assert(now_ms / 1000 / 30 == counter);
    let hash = crate::totp::hmac_sha1_of(secret, crate::totp::be_bytes(counter));
    assert(crate::totp::power_of_ten(6) == 1_000_000) by {
        reveal_with_fuel(crate::totp::power_of_ten, 7);
    }
    crate::totp::law_code_has_its_digits(totp, now_ms);
    let n = crate::totp::truncated(hash) % 1_000_000;
    crate::text_laws::law_numeral_denotes_its_number(n);
    crate::digits::lemma_padded_value(crate::digits::decimal(n), 6);
}

/// The last member of a dictionary of secrets is the one that counts: its name is
/// the version and its codes are the secret.
pub proof fn law_last_secret_counts(
    before: Seq<(Seq<char>, Option<Seq<Option<i64>>>)>,
    name: Seq<char>,
    codes: Seq<Option<i64>>,
)
    ensures
        crate::totp::secret_in(Some(before.push((name, Some(codes))))) == match crate::totp::code_bytes(
            codes,
        ) {
            Ok(bytes) => Ok::<(Seq<char>, Seq<u8>), OfficialFault>(
                (name, crate::totp::numerals(bytes)),
            ),
            Err(e) => Err(e),
        },
        crate::totp::secret_in(Some(before.push((name, None)))) == Err::<
            (Seq<char>, Seq<u8>),
            OfficialFault,
        >(OfficialFault::SecretNotAnArray),
        crate::totp::secret_in(Some(Seq::empty())) == Err::<
            (Seq<char>, Seq<u8>),
            OfficialFault,
        >(OfficialFault::SecretEmpty),
        crate::totp::secret_in(None) == Err::<(Seq<char>, Seq<u8>), OfficialFault>(
            OfficialFault::SecretNotAnObject,
        ),
{
}

/// The course of a fetch: a home page that opens is followed by the request for
/// the secret, a secret by the request for a token with its code, a token by the
/// request for the track's lyrics with that token, and lyrics by their candidate.
pub proof fn law_fetch_takes_its_course(
    track: TrackModel,
    track_id: Seq<char>,
    status: u16,
    reason: Seq<char>,
    token: Seq<char>,
    body: Seq<char>,
    dictionary: Seq<u8>,
    now_ms: u64,
)
    requires
        200 <= status <= 299,
    ensures
        crate::official_fetch::step_after(track, track_id, ReplyModel::Home { status, reason })
            matches StepModel::Ask(Stage::Secret, r) && r.headers.len() == 0 && r.query.len() == 0
            && !r.in_session,
        crate::official_fetch::step_after(
            track,
            track_id,
            ReplyModel::Token { status, reason, body, token: Some(token) },
        ) matches StepModel::Ask(Stage::Lyrics, r) && r.in_session && track_id.is_suffix_of(r.url)
            && r.headers.contains(("authorization"@, "Bearer "@ + token)) && r.query.contains(
            ("format"@, "json"@),
        ),
        crate::official_fetch::step_after(
            track,
            track_id,
            ReplyModel::Token { status, reason, body, token: None },
        ) == StepModel::Failed(OfficialFault::NoToken),
        crate::totp::secret_of_reply(status, reason, dictionary) matches Ok((version, secret)) ==> (
        crate::official_fetch::step_after(
            track,
            track_id,
            ReplyModel::Secret { status, reason, dictionary, now_ms },
        ) matches StepModel::Ask(Stage::Token, r) && r.in_session && r.query.contains(
            ("totp"@, crate::official_fetch::code_for(secret, now_ms)),
        ) && r.query.contains(("totpServer"@, crate::official_fetch::code_for(secret, now_ms)))
            && r.query.contains(("totpVer"@, version))),
        crate::totp::secret_of_reply(status, reason, dictionary) is Ok ==> (
        crate::totp::json_dictionary(dictionary) matches Some(members)
            && crate::totp::secret_of_reply(status, reason, dictionary) == crate::totp::secret_in(
            members,
        )),
{
    let r = crate::official_fetch::lyrics_request(track_id, token);
    let prefix = crate::spotify_official::LYRICS_URL_PREFIX@;
    assert(track_id =~= r.url.subrange(r.url.len() - track_id.len(), r.url.len() as int));
    assert(r.headers[0] == ("authorization"@, "Bearer "@ + token));
    assert(r.query[0] == ("format"@, "json"@));
    match crate::totp::secret_of_reply(status, reason, dictionary) {
        Ok((version, secret)) => {
            let code = crate::official_fetch::code_for(secret, now_ms);
            let q = crate::official_fetch::token_request(code, version).query;
            assert(q[2] == ("totp"@, code));
            assert(q[3] == ("totpVer"@, version));
            assert(q[4] == ("totpServer"@, code));
        },
        Err(_) => {},
    }
}

/// A reply with any other status ends the fetch with the reason that the server
/// gives, and so does no reply at all.
pub proof fn law_refusal_ends_the_fetch(
    track: TrackModel,
    track_id: Seq<char>,
    status: u16,
    reason: Seq<char>,
    token: Option<Seq<char>>,
    body: Seq<char>,
    dictionary: Seq<u8>,
    now_ms: u64,
    lyrics: Option<Seq<ServedLine>>,
)
    requires
        status < 200 || status > 299,
    ensures
        crate::official_fetch::step_after(track, track_id, ReplyModel::Home { status, reason })
            == StepModel::Failed(OfficialFault::HomeRefused(reason)),
        crate::official_fetch::step_after(
            track,
            track_id,
            ReplyModel::Secret { status, reason, dictionary, now_ms },
        ) == StepModel::Failed(OfficialFault::SecretRefused(reason)),
        crate::official_fetch::step_after(
            track,
            track_id,
            ReplyModel::Token { status, reason, body, token },
        ) == StepModel::Failed(OfficialFault::TokenRefused(reason, body)),
        crate::official_fetch::step_after(
            track,
            track_id,
            ReplyModel::Lyrics { status, reason, lyrics },
        ) == StepModel::Failed(OfficialFault::LyricsRefused(reason)),
        crate::official_fetch::step_after(track, track_id, ReplyModel::Unanswered(reason))
            == StepModel::Failed(OfficialFault::Unanswered(reason)),
{
}

/// Lyrics that are served end the fetch: with a candidate where any line has
/// words, else with an error.
pub proof fn law_served_lyrics_end_the_fetch(
    track: TrackModel,
    track_id: Seq<char>,
    status: u16,
    reason: Seq<char>,
    lines: Seq<ServedLine>,
)
    requires
        200 <= status <= 299,
    ensures
        ({
            let step = crate::official_fetch::step_after(
                track,
                track_id,
                ReplyModel::Lyrics { status, reason, lyrics: Some(lines) },
            );
            let spoken = exists|i: int|
                0 <= i < lines.len() && crate::text::trim((#[trigger] lines[i]).words).len() > 0;
            &&& spoken ==> step == StepModel::Done(
                crate::spotify_official::official_candidate(track, lines),
            )
            &&& !spoken ==> step == StepModel::Failed(OfficialFault::EmptyLyrics)
        }),
        crate::official_fetch::step_after(
            track,
            track_id,
            ReplyModel::Lyrics { status, reason, lyrics: None },
        ) == StepModel::Failed(OfficialFault::NoLyrics),
{
    lemma_spoken(lines);
}

proof fn lemma_spoken(lines: Seq<ServedLine>)
    ensures
        crate::spotify_official::spoken(lines).len() > 0 <==> exists|i: int|
            0 <= i < lines.len() && crate::text::trim((#[trigger] lines[i]).words).len() > 0,
    decreases lines.len(),
{
    if lines.len() > 0 {
        let rest = lines.drop_last();
        lemma_spoken(rest);
        if exists|i: int|
            0 <= i < rest.len() && crate::text::trim((#[trigger] rest[i]).words).len() > 0 {
            let i = choose|i: int|
                0 <= i < rest.len() && crate::text::trim((#[trigger] rest[i]).words).len() > 0;
            assert(crate::text::trim(lines[i].words).len() > 0);
        }
        if crate::text::trim(lines.last().words).len() > 0 {
            assert(crate::text::trim(lines[lines.len() - 1].words).len() > 0);
        }
        if exists|i: int|
            0 <= i < lines.len() && crate::text::trim((#[trigger] lines[i]).words).len() > 0 {
            let i = choose|i: int|
                0 <= i < lines.len() && crate::text::trim((#[trigger] lines[i]).words).len() > 0;
            if i < rest.len() {
                assert(crate::text::trim(rest[i].words).len() > 0);
            }
        }
    }
}

/// The identifier and the cookie go into the request as they are, the cookie
/// without the blanks around it; a track without an identifier is refused first.
pub proof fn law_request_holds_identifier_and_cookie(
    id: Seq<char>,
    before: Seq<char>,
    core: Seq<char>,
    after: Seq<char>,
)
    requires
        crate::text_laws::is_blank(before),
        crate::text_laws::is_trimmed(core),
        crate::text_laws::is_blank(after),
    ensures
        core.len() > 0 ==> crate::spotify_official::request_for(Some(id), before + core + after)
            == Ok::<(Seq<char>, Seq<char>), OfficialFault>((id, "sp_dc="@ + core)),
        core.len() == 0 ==> crate::spotify_official::request_for(Some(id), before + core + after)
            == Err::<(Seq<char>, Seq<char>), OfficialFault>(OfficialFault::MissingCookie),
        crate::spotify_official::request_for(None, before + core + after) == Err::<
            (Seq<char>, Seq<char>),
            OfficialFault,
        >(OfficialFault::MissingTrackId),
{
    crate::text_laws::law_trim_takes_outer_space(before, core, after);
}

/// What is shown for a refusal ends with the reason of the server, and of a
/// refused token with its answer where there is one.
pub proof fn law_refusal_names_the_reason(reason: Seq<char>, body: Seq<char>)
    ensures
        reason.is_suffix_of(crate::spotify_official::fault_text(OfficialFault::HomeRefused(reason))),
        reason.is_suffix_of(
            crate::spotify_official::fault_text(OfficialFault::SecretRefused(reason)),
        ),
        reason.is_suffix_of(
            crate::spotify_official::fault_text(OfficialFault::LyricsRefused(reason)),
        ),
        crate::spotify_official::fault_text(OfficialFault::Unanswered(reason)) == reason,
        body.len() == 0 ==> reason.is_suffix_of(
            crate::spotify_official::fault_text(OfficialFault::TokenRefused(reason, body)),
        ),
        body.len() > 0 ==> (reason + " body="@ + body).is_suffix_of(
            crate::spotify_official::fault_text(OfficialFault::TokenRefused(reason, body)),
        ),
{
    lemma_suffix("Spotify home page request failed: HTTP "@, reason);
    lemma_suffix("failed to fetch Spotify TOTP secret dictionary: HTTP "@, reason);
    lemma_suffix("Spotify lyrics request failed: HTTP "@, reason);
    lemma_suffix("Spotify access token request failed: HTTP "@, reason);
    let p = "Spotify access token request failed: HTTP "@;
    lemma_suffix(p, reason + " body="@ + body);
    assert(p + (reason + " body="@ + body) =~= p + reason + " body="@ + body);
}

proof fn lemma_suffix(a: Seq<char>, b: Seq<char>)
    ensures
        b.is_suffix_of(a + b),
{
    let s = a + b;
    assert(b =~= s.subrange(s.len() - b.len(), s.len() as int));
}

/// A reply with the dictionary of secrets gives the secret that the dictionary
/// holds, and an error of its own where it is no dictionary that can be read.
pub proof fn law_reply_gives_the_secret_in_it(
    status: u16,
    reason: Seq<char>,
    other: Seq<char>,
    body: Seq<u8>,
)
    requires
        200 <= status <= 299,
    ensures
        crate::totp::json_dictionary(body) matches Some(members) ==> crate::totp::secret_of_reply(
            status,
            reason,
            body,
        ) == crate::totp::secret_in(members),
        crate::totp::json_dictionary(body) is None ==> crate::totp::secret_of_reply(
            status,
            reason,
            body,
        ) == Err::<(Seq<char>, Seq<u8>), OfficialFault>(OfficialFault::SecretUnreadable),
        crate::totp::secret_of_reply(status, reason, body) == crate::totp::secret_of_reply(
            status,
            other,
            body,
        ),
{
}

} // verus!
