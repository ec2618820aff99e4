//! Time-based one-time codes for Spotify's token server.
use hmac::{Hmac, Mac};
use sha1::Sha1;
use vstd::prelude::*;

use crate::digits::{decimal_text, padded_text};
use crate::spotify_official::{OfficialError, OfficialFault};
use crate::text::chars_of;

verus! {

/// The keyed hash HMAC-SHA1 of a message.
pub uninterp spec fn hmac_sha1_of(key: Seq<u8>, message: Seq<u8>) -> Seq<u8>;

/// What a JSON text holds, seen as a dictionary of number lists: nothing where
/// it is no JSON text, nothing inside that where it is no object, else the
/// members of the object, each with its name and, where it is a list, with its
/// elements, those that are 64-bit integers as such.
pub uninterp spec fn json_dictionary(body: Seq<u8>) -> Option<
    Option<Seq<(Seq<char>, Option<Seq<Option<i64>>>)>>,
>;

#[verifier::external_type_specification]
#[verifier::external_body]
pub struct ExInvalidLength(hmac::digest::InvalidLength);

#[verifier::external_type_specification]
#[verifier::external_body]
pub struct ExJsonError(serde_json::Error);

/// Computes a keyed hash (`hmac::Hmac` over `sha1::Sha1`: `new_from_slice`,
/// `update`, `finalize`). The contract claims that a key of any length is
/// accepted, that the hash depends on the key and the message alone, and that
/// it has twenty bytes.
#[verifier::external_body]
fn hmac_sha1(key: &[u8], message: &[u8]) -> (r: Result<Vec<u8>, hmac::digest::InvalidLength>)
    ensures
        match r {
            Ok(hash) => hash@ == hmac_sha1_of(key@, message@) && hash@.len() == 20,
            Err(_) => false,
        },
{
    let mut mac = Hmac::<Sha1>::new_from_slice(key)?;
    mac.update(message);
    Ok(mac.finalize().into_bytes().to_vec())
}

/// Reads a JSON text (`serde_json::from_slice` to a `serde_json::Value`, taken
/// apart by `as_object`, `as_array` and `as_i64`; the members come in the
/// order in which `serde_json::Map` iterates over them). The contract claims
/// only that what is read depends on the text alone.
#[verifier::external_body]
fn parse_dictionary(body: &[u8]) -> (r: Result<
    Option<Vec<(String, Option<Vec<Option<i64>>>)>>,
    serde_json::Error,
>)
    ensures
        match r {
            Ok(members) => json_dictionary(body@) == Some(members.deep_view()),
            Err(_) => json_dictionary(body@) is None,
        },
{
    let value = serde_json::from_slice::<serde_json::Value>(body)?;
    Ok(value.as_object().map(|members| members.iter().map(|(name, member)| (
        name.clone(),
        member.as_array().map(|codes| codes.iter().map(|code| code.as_i64()).collect()),
    )).collect()))
}

/// The byte that the code at `index` of a secret stands for.
pub open spec fn code_byte(index: nat, code: Option<i64>) -> Result<u8, OfficialFault> {
    match code {
        None => Err(OfficialFault::SecretNotAnInteger),
        Some(raw) => {
            let byte = raw ^ ((index % 33 + 9) as i64);
            if 0 <= byte <= 255 {
                Ok(byte as u8)
            } else {
                Err(OfficialFault::SecretOutOfRange)
            }
        },
    }
}

/// Masking a byte as a secret does, and reading the code, gives the byte back.
pub proof fn law_code_reads_back(index: nat, b: u8)
    ensures
        code_byte(index, Some((b as i64) ^ ((index % 33 + 9) as i64))) == Ok::<u8, OfficialFault>(
            b,
        ),
{
    let x = b as i64;
    let k = (index % 33 + 9) as i64;
    assert((x ^ k) ^ k == x) by (bit_vector);
}

/// The bytes that the codes of a secret stand for; the first code that stands
/// for none decides the error.
pub open spec fn code_bytes(codes: Seq<Option<i64>>) -> Result<Seq<u8>, OfficialFault>
    decreases codes.len(),
{
    if codes.len() == 0 {
        Ok(Seq::empty())
    } else {
        match code_bytes(codes.drop_last()) {
            Err(e) => Err(e),
            Ok(bytes) => match code_byte((codes.len() - 1) as nat, codes.last()) {
                Err(e) => Err(e),
                Ok(b) => Ok(bytes.push(b)),
            },
        }
    }
}

/// The bytes of a text of ASCII characters.
pub open spec fn ascii_bytes(s: Seq<char>) -> Seq<u8> {
    Seq::new(s.len(), |i: int| s[i] as u8)
}

/// The decimal numerals of `bytes`, one after the other.
pub open spec fn numerals(bytes: Seq<u8>) -> Seq<u8>
    decreases bytes.len(),
{
    if bytes.len() == 0 {
        Seq::empty()
    } else {
        numerals(bytes.drop_last()) + ascii_bytes(crate::digits::decimal(bytes.last() as nat))
    }
}

/// The secret and its version that a dictionary of secrets holds: those of its
/// last member.
pub open spec fn secret_in(
    members: Option<Seq<(Seq<char>, Option<Seq<Option<i64>>>)>>,
) -> Result<(Seq<char>, Seq<u8>), OfficialFault> {
    match members {
        None => Err(OfficialFault::SecretNotAnObject),
        Some(list) => if list.len() == 0 {
            Err(OfficialFault::SecretEmpty)
        } else {
            match list.last().1 {
                None => Err(OfficialFault::SecretNotAnArray),
                Some(codes) => match code_bytes(codes) {
                    Err(e) => Err(e),
                    Ok(bytes) => Ok((list.last().0, numerals(bytes))),
                },
            }
        },
    }
}

/// The secret in the reply of the server that keeps the dictionary of secrets.
pub open spec fn secret_of_reply(status: u16, reason: Seq<char>, body: Seq<u8>) -> Result<
    (Seq<char>, Seq<u8>),
    OfficialFault,
> {
    if !crate::spotify_official::is_success(status) {
        Err(OfficialFault::SecretRefused(reason))
    } else {
        match json_dictionary(body) {
            None => Err(OfficialFault::SecretUnreadable),
            Some(members) => secret_in(members),
        }
    }
}

/// The eight bytes of a number, the highest first.
pub open spec fn be_bytes(n: u64) -> Seq<u8> {
    seq![
        (n / 0x100_0000_0000_0000) as u8,
        (n / 0x1_0000_0000_0000 % 256) as u8,
        (n / 0x100_0000_0000 % 256) as u8,
        (n / 0x1_0000_0000 % 256) as u8,
        (n / 0x100_0000 % 256) as u8,
        (n / 0x1_0000 % 256) as u8,
        (n / 0x100 % 256) as u8,
        (n % 256) as u8,
    ]
}

/// Ten to the power of `n`.
pub open spec fn power_of_ten(n: nat) -> nat
    decreases n,
{
    if n == 0 {
        1
    } else {
        10 * power_of_ten((n - 1) as nat)
    }
}

/// The 31-bit number that a hash holds at the place that its last four bits
/// name.
pub open spec fn truncated(hash: Seq<u8>) -> nat {
    let offset = (hash[19] % 16) as int;
    ((hash[offset] % 128) as nat) * 0x100_0000 + (hash[offset + 1] as nat) * 0x1_0000 + (hash[offset
        + 2] as nat) * 0x100 + hash[offset + 3] as nat
}

/// The one-time code that a hash stands for.
pub open spec fn code_of_hash(hash: Seq<u8>, digits: nat) -> Seq<char> {
    crate::digits::zero_padded(
        crate::digits::decimal(truncated(hash) % power_of_ten(digits)),
        digits,
    )
}

/// A generator of time-based one-time codes.
#[derive(Debug)]
pub struct Totp {
    pub secret: Vec<u8>,
    pub version: String,
    pub period: u64,
    pub digits: usize,
}

impl Totp {
    /// A code is valid for some time and its digits fit 32 bits.
    pub open spec fn wf(&self) -> bool {
        self.period > 0 && self.digits <= 9
    }

    /// The code at a time.
    pub open spec fn code_at(&self, timestamp_ms: u64) -> Seq<char> {
        code_of_hash(
            hmac_sha1_of(self.secret@, be_bytes(timestamp_ms / 1000 / self.period)),
            self.digits as nat,
        )
    }
}

/// A code is the same throughout its period.
pub proof fn law_code_lasts_its_period(totp: Totp, a: u64, b: u64)
    requires
        totp.wf(),
        a / 1000 / totp.period == b / 1000 / totp.period,
    ensures
        totp.code_at(a) == totp.code_at(b),
{
}

proof fn lemma_power_of_ten(n: nat)
    requires
        n <= 9,
    ensures
        0 < power_of_ten(n) <= 1_000_000_000,
{
    reveal_with_fuel(power_of_ten, 10);
}

proof fn lemma_decimal_width(n: nat, digits: nat)
    requires
        digits > 0,
        n < power_of_ten(digits),
    ensures
        crate::digits::decimal(n).len() <= digits,
    decreases digits,
{
    if digits == 1 {
        assert(power_of_ten(0) == 1);
    } else if n >= 10 {
        assert(power_of_ten(digits) == 10 * power_of_ten((digits - 1) as nat));
        lemma_decimal_width(n / 10, (digits - 1) as nat);
    }
}

/// A code has as many digits as asked for.
pub proof fn law_code_has_its_digits(totp: Totp, timestamp_ms: u64)
    requires
        totp.wf(),
        totp.digits > 0,
    ensures
        totp.code_at(timestamp_ms).len() == totp.digits,
        crate::digits::all_digits(totp.code_at(timestamp_ms)),
{
    let hash = hmac_sha1_of(totp.secret@, be_bytes(timestamp_ms / 1000 / totp.period));
    let digits = totp.digits as nat;
    lemma_power_of_ten(digits);
    let n = truncated(hash) % power_of_ten(digits);
    lemma_decimal_width(n, digits);
    crate::digits::lemma_decimal_digits(n);
    crate::digits::lemma_padded_value(crate::digits::decimal(n), digits);
}

/// The eight bytes of a number, the highest first.
fn to_be_bytes(n: u64) -> (r: Vec<u8>)
    ensures
        r@ == be_bytes(n),
{
    let mut out: Vec<u8> = Vec::new();
    out.push((n / 0x100_0000_0000_0000) as u8);
    out.push((n / 0x1_0000_0000_0000 % 256) as u8);
    out.push((n / 0x100_0000_0000 % 256) as u8);
    out.push((n / 0x1_0000_0000 % 256) as u8);
    out.push((n / 0x100_0000 % 256) as u8);
    out.push((n / 0x1_0000 % 256) as u8);
    out.push((n / 0x100 % 256) as u8);
    out.push((n % 256) as u8);
    assert(out@ =~= be_bytes(n));
    out
}

/// The one-time code of `digits` digits that a hash stands for.
pub fn code_of(hash: &[u8], digits: usize) -> (r: String)
    requires
        hash@.len() == 20,
        digits <= 9,
    ensures
        r@ == code_of_hash(hash@, digits as nat),
{
    let offset: usize = (hash[19] % 16) as usize;
    let number: u64 = ((hash[offset] % 128) as u64) * 0x100_0000 + (hash[offset + 1] as u64)
        * 0x1_0000 + (hash[offset + 2] as u64) * 0x100 + hash[offset + 3] as u64;
    let mut modulus: u64 = 1;
    let mut i: usize = 0;
    while i < digits
        invariant
            i <= digits <= 9,
            modulus == power_of_ten(i as nat),
        decreases digits - i,
    {
        proof {
            lemma_power_of_ten(i as nat);
        }
        modulus = modulus * 10;
        i = i + 1;
    }
    proof {
        lemma_power_of_ten(digits as nat);
    }
    padded_text(number % modulus, digits)
}

/// The byte that a code stands for.
fn byte_of_code(index: usize, code: Option<i64>) -> (r: Result<u8, OfficialError>)
    ensures
        match r {
            Ok(b) => code_byte(index as nat, code) == Ok::<u8, OfficialFault>(b),
            Err(e) => code_byte(index as nat, code) == Err::<u8, OfficialFault>(e@),
        },
{
    match code {
        None => Err(OfficialError::SecretNotAnInteger),
        Some(raw) => {
            let byte: i64 = raw ^ ((index % 33) as i64 + 9);
            if 0 <= byte && byte <= 255 {
                Ok(byte as u8)
            } else {
                Err(OfficialError::SecretOutOfRange)
            }
        },
    }
}

/// Appends the characters of a numeral as bytes.
fn append_numeral(out: &mut Vec<u8>, n: u8)
    ensures
        final(out)@ == old(out)@ + ascii_bytes(crate::digits::decimal(n as nat)),
{
    let text: String = decimal_text(n as u64);
    let cs: Vec<char> = chars_of(text.as_str());
    let ghost start = out@;
    proof {
        crate::digits::lemma_decimal_digits(n as nat);
    }
    let mut i: usize = 0;
    while i < cs.len()
        invariant
            i <= cs.len(),
            cs@ == crate::digits::decimal(n as nat),
            crate::digits::all_digits(cs@),
            out@ == start + ascii_bytes(cs@.take(i as int)),
        decreases cs.len() - i,
    {
        assert(crate::digits::is_digit(cs@[i as int]));
        out.push(cs[i] as u8);
        i = i + 1;
        assert(out@ =~= start + ascii_bytes(cs@.take(i as int)));
    }
    assert(cs@.take(i as int) =~= cs@);
}

/// The key that the codes of a secret stand for.
pub fn secret_key(codes: &Vec<Option<i64>>) -> (r: Result<Vec<u8>, OfficialError>)
    ensures
        match r {
            Ok(key) => code_bytes(codes@) matches Ok(bytes) && key@ == numerals(bytes),
            Err(e) => code_bytes(codes@) == Err::<Seq<u8>, OfficialFault>(e@),
        },
{
    let mut key: Vec<u8> = Vec::new();
    let ghost mut bytes = Seq::<u8>::empty();
    let mut i: usize = 0;
    assert(codes@.take(0) =~= Seq::<Option<i64>>::empty());
    while i < codes.len()
        invariant
            i <= codes.len(),
            code_bytes(codes@.take(i as int)) == Ok::<Seq<u8>, OfficialFault>(bytes),
            key@ == numerals(bytes),
        decreases codes.len() - i,
    {
        proof {
            assert(codes@.take(i + 1).drop_last() =~= codes@.take(i as int));
        }
        match byte_of_code(i, codes[i]) {
            Ok(b) => {
                append_numeral(&mut key, b);
                proof {
                    assert(bytes.push(b).drop_last() =~= bytes);
                    bytes = bytes.push(b);
                }
            },
            Err(e) => {
                proof {
                    lemma_first_error(codes@, i + 1);
                }
                return Err(e);
            },
        }
        i = i + 1;
    }
    assert(codes@.take(i as int) =~= codes@);
    Ok(key)
}

/// An error of the first codes is the error of all of them.
proof fn lemma_first_error(codes: Seq<Option<i64>>, n: int)
    requires
        0 <= n <= codes.len(),
        code_bytes(codes.take(n)) is Err,
    ensures
        code_bytes(codes) == code_bytes(codes.take(n)),
    decreases codes.len(),
{
    if n == codes.len() {
        assert(codes.take(n) =~= codes);
    } else {
        assert(codes.drop_last().take(n) =~= codes.take(n));
        lemma_first_error(codes.drop_last(), n);
    }
}

impl Totp {
    /// The generator for the secret of a dictionary of secrets.
    pub fn from_dictionary(members: Option<Vec<(String, Option<Vec<Option<i64>>>)>>) -> (r: Result<
        Totp,
        OfficialError,
    >)
        ensures
            match r {
                Ok(totp) => {
                    &&& totp.wf()
                    &&& totp.period == 30
                    &&& totp.digits == 6
                    &&& secret_in(members.deep_view()) == Ok::<(Seq<char>, Seq<u8>), OfficialFault>(
                        (totp.version@, totp.secret@),
                    )
                },
                Err(e) => secret_in(members.deep_view()) == Err::<
                    (Seq<char>, Seq<u8>),
                    OfficialFault,
                >(e@),
            },
    {
        let mut list: Vec<(String, Option<Vec<Option<i64>>>)> = match members {
            Some(list) => list,
            None => return Err(OfficialError::SecretNotAnObject),
        };
        let ghost all = list.deep_view();
        assert(members.deep_view() == Some(all));
        let (version, member): (String, Option<Vec<Option<i64>>>) = match list.pop() {
            Some(last) => last,
            None => return Err(OfficialError::SecretEmpty),
        };
        assert(all.last() == (version, member).deep_view());
        let codes: Vec<Option<i64>> = match member {
            Some(codes) => codes,
            None => return Err(OfficialError::SecretNotAnArray),
        };
        assert(codes.deep_view() =~= codes@);
        match secret_key(&codes) {
            Ok(secret) => Ok(Totp { secret, version, period: 30, digits: 6 }),
            Err(e) => Err(e),
        }
    }

    /// The generator for the secret in the reply of the server that keeps the
    /// dictionary of secrets.
    pub fn new(status: u16, reason: &str, body: &[u8]) -> (r: Result<Totp, OfficialError>)
        ensures
            match r {
                Ok(totp) => {
                    &&& totp.wf()
                    &&& totp.period == 30
                    &&& totp.digits == 6
                    &&& secret_of_reply(status, reason@, body@) == Ok::<
                        (Seq<char>, Seq<u8>),
                        OfficialFault,
                    >((totp.version@, totp.secret@))
                },
                Err(e) => secret_of_reply(status, reason@, body@) == Err::<
                    (Seq<char>, Seq<u8>),
                    OfficialFault,
                >(e@),
            },
    {
        if status < 200 || status >= 300 {
            return Err(OfficialError::SecretRefused(reason.to_owned()));
        }
        match parse_dictionary(body) {
            Ok(members) => Totp::from_dictionary(members),
            Err(_) => Err(OfficialError::SecretUnreadable),
        }
    }

    /// The code at a time.
    pub fn generate(&self, timestamp_ms: u64) -> (r: Result<String, OfficialError>)
        requires
            self.wf(),
        ensures
            r matches Ok(code) && code@ == self.code_at(timestamp_ms),
    {
        let counter: u64 = timestamp_ms / 1000 / self.period;
        let message: Vec<u8> = to_be_bytes(counter);
        match hmac_sha1(self.secret.as_slice(), message.as_slice()) {
            Ok(hash) => Ok(code_of(hash.as_slice(), self.digits)),
            Err(_) => Err(OfficialError::CodeUnavailable),
        }
    }
}

} // verus!
