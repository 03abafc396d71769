//! The claims codec: session facts as a signed, self-contained token.
//!
//! A token is the hexadecimal text of a payload, a full stop, and the
//! hexadecimal text of the payload's HMAC-SHA-256 tag under the signing key.
//! The payload lays the claims out as bytes: the user id and the expiry as
//! big-endian numbers, then the user name and the provider tokens as
//! length-prefixed UTF-8 fields. Checking a token needs the token, the key and
//! the current time, and nothing else.

use crate::hex::{
    ascii_codes, codes_match, digit_value, hex_bytes, hex_text, is_hex_text,
    lemma_text_has_no_stop, push_hex, read_hex,
};
use crate::wire::{
    be32, be64, fits, get_optional_text, get_text, get_u32, get_u64,
    lemma_numbers_read_back, lemma_optional_text_reads_back, optional_text_at,
    optional_text_field, push_text, push_u32, push_u64, read32, read64, text_at, text_field,
};
use vstd::prelude::*;
use vstd::utf8::*;

verus! {

/// The facts of one session.
#[derive(Debug, Clone, PartialEq, Eq)]
pub struct Claims {
    /// The id of the user in the directory.
    pub user_id: i32,
    /// The canonical user name.
    pub username: String,
    /// The provider's access token, opaque to this library.
    pub access_token: String,
    /// The provider's refresh token, if it gave one.
    pub refresh_token: Option<String>,
    /// The second, counted from the Unix epoch, after which the claims no
    /// longer hold.
    pub expires_at: u64,
}

/// What a `Claims` value holds, as mathematical values.
pub struct ClaimsView {
    pub user_id: i32,
    pub username: Seq<char>,
    pub access_token: Seq<char>,
    pub refresh_token: Option<Seq<char>>,
    pub expires_at: u64,
}

/// The view of a text that may be absent.
pub open spec fn optional_view(text: Option<String>) -> Option<Seq<char>> {
    match text {
        Some(t) => Some(t@),
        None => None,
    }
}

impl View for Claims {
    type V = ClaimsView;

    open spec fn view(&self) -> ClaimsView {
        ClaimsView {
            user_id: self.user_id,
            username: self.username@,
            access_token: self.access_token@,
            refresh_token: optional_view(self.refresh_token),
            expires_at: self.expires_at,
        }
    }
}

/// Why a token was not accepted.
#[derive(Debug, Clone, Copy, PartialEq, Eq)]
pub enum DecodeError {
    /// The token is malformed, or its tag is not the one that the key gives.
    Invalid,
    /// The token is genuine and its expiry lies in the past.
    Expired,
}

/// Why claims could not be made into a token.
#[derive(Debug, Clone, Copy, PartialEq, Eq)]
pub enum EncodeError {
    /// A text of the claims takes more than 65535 bytes.
    FieldTooLong,
}

/// The tag that HMAC-SHA-256 gives a message under a key.
pub uninterp spec fn hmac_sha256(key: Seq<u8>, message: Seq<u8>) -> Seq<u8>;

/// Computes the HMAC-SHA-256 tag of `message` under `key` with the `hmac` and
/// `sha2` crates: `Hmac::<Sha256>::new_from_slice`, which takes a key of any
/// length and never fails, then `update` and `finalize`. The tag depends on
/// the key and the message alone.
#[verifier::external_body]
fn keyed_digest(key: &[u8], message: &[u8]) -> (tag: Vec<u8>)
    ensures
        tag@ == hmac_sha256(key@, message@),
{
    match <hmac::Hmac<sha2::Sha256> as hmac::Mac>::new_from_slice(key) {
        Ok(mut mac) => {
            hmac::Mac::update(&mut mac, message);
            hmac::Mac::finalize(mac).into_bytes().to_vec()
        },
        Err(_) => Vec::new(),
    }
}

/// The number that stands for a user id in a payload: the id itself, or the
/// id plus 2^32 where it is negative.
pub open spec fn id_code(id: i32) -> int {
    if id >= 0 {
        id as int
    } else {
        id + 4294967296
    }
}

/// The user id that a number below 2^32 stands for.
pub open spec fn code_id(code: int) -> i32 {
    if code < 2147483648 {
        code as i32
    } else {
        (code - 4294967296) as i32
    }
}

/// Whether every text of the claims fits in a field.
pub open spec fn encodable(c: ClaimsView) -> bool {
    &&& fits(c.username)
    &&& fits(c.access_token)
    &&& c.refresh_token matches Some(t) ==> fits(t)
}

/// The bytes of the claims.
#[verifier::opaque]
pub open spec fn payload(c: ClaimsView) -> Seq<u8> {
    be32(id_code(c.user_id)) + be64(c.expires_at as int) + text_field(c.username) + text_field(
        c.access_token,
    ) + optional_text_field(c.refresh_token)
}

/// The claims that a payload holds, if it is laid out as one, with nothing
/// behind the last field.
#[verifier::opaque]
pub open spec fn claims_of(b: Seq<u8>) -> Option<ClaimsView> {
    if b.len() < 12 {
        None
    } else {
        match text_at(b, 12) {
            None => None,
            Some((username, p1)) => match text_at(b, p1) {
                None => None,
                Some((access_token, p2)) => match optional_text_at(b, p2) {
                    None => None,
                    Some((refresh_token, p3)) => if p3 == b.len() {
                        Some(
                            ClaimsView {
                                user_id: code_id(read32(b, 0)),
                                username,
                                access_token,
                                refresh_token,
                                expires_at: read64(b, 4) as u64,
                            },
                        )
                    } else {
                        None
                    },
                },
            },
        }
    }
}

/// The text of a token with the given payload and tag.
pub open spec fn token_text(payload: Seq<u8>, tag: Seq<u8>) -> Seq<char> {
    hex_text(payload) + seq!['.'] + hex_text(tag)
}

/// Whether the full stop at `i` parts `token` into two hexadecimal texts.
pub open spec fn splits_at(token: Seq<char>, i: int) -> bool {
    &&& 0 <= i < token.len()
    &&& token[i] == '.'
    &&& is_hex_text(token.take(i))
    &&& is_hex_text(token.skip(i + 1))
}

/// The payload and the tag of a token, if it has the shape of one.
pub open spec fn token_parts(token: Seq<char>) -> Option<(Seq<u8>, Seq<u8>)> {
    if exists|i: int| splits_at(token, i) {
        let i = choose|i: int| splits_at(token, i);
        Some((hex_bytes(token.take(i)).unwrap(), hex_bytes(token.skip(i + 1)).unwrap()))
    } else {
        None
    }
}

/// The token for the claims under a key.
pub open spec fn encoded(c: ClaimsView, key: Seq<u8>) -> Seq<char> {
    token_text(payload(c), hmac_sha256(key, payload(c)))
}

/// What a payload is worth, given the tag that came with it, the tag that
/// the key gives it, and the current time.
pub open spec fn checked(payload: Seq<u8>, presented: Seq<u8>, expected: Seq<u8>, now: u64)
    -> Result<ClaimsView, DecodeError> {
    if presented != expected {
        Err(DecodeError::Invalid)
    } else {
        match claims_of(payload) {
            None => Err(DecodeError::Invalid),
            Some(c) => if c.expires_at < now {
                Err(DecodeError::Expired)
            } else {
                Ok(c)
            },
        }
    }
}

/// What a token is worth under a key at a time.
pub open spec fn decoded(token: Seq<char>, key: Seq<u8>, now: u64) -> Result<
    ClaimsView,
    DecodeError,
> {
    match token_parts(token) {
        None => Err(DecodeError::Invalid),
        Some((payload, tag)) => checked(payload, tag, hmac_sha256(key, payload), now),
    }
}

/// The view of a decoding result.
pub open spec fn result_view(r: Result<Claims, DecodeError>) -> Result<ClaimsView, DecodeError> {
    match r {
        Ok(c) => Ok(c@),
        Err(e) => Err(e),
    }
}

/// A token has one full stop that parts it.
pub proof fn lemma_one_split(token: Seq<char>, i: int, j: int)
    requires
        splits_at(token, i),
        splits_at(token, j),
    ensures
        i == j,
{
    if i < j {
        assert(token.take(j)[i] == '.');
        lemma_text_has_no_stop(token.take(j), i);
    }
    if j < i {
        assert(token.take(i)[j] == '.');
        lemma_text_has_no_stop(token.take(i), j);
    }
}

/// The parts of a token are its payload and its tag.
pub proof fn lemma_token_parts(payload: Seq<u8>, tag: Seq<u8>)
    ensures
        token_parts(token_text(payload, tag)) == Some((payload, tag)),
{
    let token = token_text(payload, tag);
    let i = hex_text(payload).len() as int;
    crate::hex::lemma_text_reads_back(payload);
    crate::hex::lemma_text_reads_back(tag);
    assert(token.take(i) =~= hex_text(payload));
    assert(token.skip(i + 1) =~= hex_text(tag));
    assert(token[i] == '.');
    assert(splits_at(token, i));
    let j = choose|j: int| splits_at(token, j);
    lemma_one_split(token, i, j);
}

/// The claims that a payload was made of are read back from it.
pub proof fn lemma_payload_reads_back(c: ClaimsView)
    requires
        encodable(c),
    ensures
        claims_of(payload(c)) == Some(c),
{
    reveal(payload);
    reveal(claims_of);
    let b = payload(c);
    let none = Seq::<u8>::empty();
    let e1 = be32(id_code(c.user_id));
    let e2 = be64(c.expires_at as int);
    let f1 = text_field(c.username);
    let f2 = text_field(c.access_token);
    let f3 = optional_text_field(c.refresh_token);
    lemma_numbers_read_back(none, id_code(c.user_id), e2 + f1 + f2 + f3);
    lemma_numbers_read_back(e1, c.expires_at as int, f1 + f2 + f3);
    crate::wire::lemma_text_reads_back(e1 + e2, c.username, f2 + f3);
    crate::wire::lemma_text_reads_back(e1 + e2 + f1, c.access_token, f3);
    lemma_optional_text_reads_back(e1 + e2 + f1 + f2, c.refresh_token, none);
    assert(b =~= none + e1 + (e2 + f1 + f2 + f3));
    assert(b =~= e1 + e2 + (f1 + f2 + f3));
    assert(b =~= (e1 + e2) + f1 + (f2 + f3));
    assert(b =~= (e1 + e2 + f1) + f2 + f3);
    assert(b =~= (e1 + e2 + f1 + f2) + f3 + none);
    assert(code_id(id_code(c.user_id)) == c.user_id);
}

/// Round trip: a token made of claims that fit, checked under the same key no
/// later than the expiry, gives the claims back.
pub proof fn law_round_trip(c: ClaimsView, key: Seq<u8>, now: u64)
    requires
        encodable(c),
        now <= c.expires_at,
    ensures
        decoded(encoded(c, key), key, now) == Ok::<ClaimsView, DecodeError>(c),
{
    lemma_token_parts(payload(c), hmac_sha256(key, payload(c)));
    lemma_payload_reads_back(c);
}

/// A token checked under its own key after its expiry is expired, never
/// invalid.
pub proof fn law_expired_after_expiry(c: ClaimsView, key: Seq<u8>, now: u64)
    requires
        encodable(c),
        c.expires_at < now,
    ensures
        decoded(encoded(c, key), key, now) == Err::<ClaimsView, DecodeError>(DecodeError::Expired),
{
    lemma_token_parts(payload(c), hmac_sha256(key, payload(c)));
    lemma_payload_reads_back(c);
}

/// A token checked under a key that gives its payload another tag than the
/// key it was made under is invalid, at any time.
pub proof fn law_other_key_invalid(c: ClaimsView, key: Seq<u8>, other: Seq<u8>, now: u64)
    requires
        hmac_sha256(other, payload(c)) != hmac_sha256(key, payload(c)),
    ensures
        decoded(encoded(c, key), other, now) == Err::<ClaimsView, DecodeError>(
            DecodeError::Invalid,
        ),
{
    lemma_token_parts(payload(c), hmac_sha256(key, payload(c)));
}

/// The payload of the claims, or the reason why they have none.
pub fn payload_bytes(claims: &Claims) -> (r: Result<Vec<u8>, EncodeError>)
    ensures
        encodable(claims@) ==> (r matches Ok(b) && b@ == payload(claims@)),
        !encodable(claims@) ==> r == Err::<Vec<u8>, EncodeError>(EncodeError::FieldTooLong),
{
    reveal(payload);
    reveal(optional_text_field);
    let mut out: Vec<u8> = Vec::new();
    let code: u32 = if claims.user_id >= 0 {
        claims.user_id as u32
    } else {
        (claims.user_id as i64 + 4294967296) as u32
    };
    push_u32(&mut out, code);
    push_u64(&mut out, claims.expires_at);
    if !push_text(&mut out, claims.username.as_str()) {
        return Err(EncodeError::FieldTooLong);
    }
    if !push_text(&mut out, claims.access_token.as_str()) {
        return Err(EncodeError::FieldTooLong);
    }
    match &claims.refresh_token {
        None => {
            out.push(0u8);
            assert(out@ =~= payload(claims@));
        },
        Some(t) => {
            out.push(1u8);
            if !push_text(&mut out, t.as_str()) {
                return Err(EncodeError::FieldTooLong);
            }
            assert(out@ =~= payload(claims@));
        },
    }
    Ok(out)
}

/// The claims that a payload holds, if it is laid out as one.
pub fn read_claims(b: &[u8]) -> (r: Option<Claims>)
    ensures
        r is Some <==> claims_of(b@) is Some,
        r matches Some(c) ==> claims_of(b@) == Some(c@),
{
    reveal(claims_of);
    let len = b.len();
    if len < 12 {
        return None;
    }
    let code = get_u32(b, 0);
    let user_id: i32 = if code < 2147483648 {
        code as i32
    } else {
        (code as i64 - 4294967296) as i32
    };
    let expires_at = get_u64(b, 4);
    let (username, p1) = match get_text(b, 12) {
        Some(found) => found,
        None => {
            return None;
        },
    };
    let (access_token, p2) = match get_text(b, p1) {
        Some(found) => found,
        None => {
            return None;
        },
    };
    let (refresh_token, p3) = match get_optional_text(b, p2) {
        Some(found) => found,
        None => {
            return None;
        },
    };
    if p3 != len {
        return None;
    }
    Some(Claims { user_id, username, access_token, refresh_token, expires_at })
}

/// The token with the given payload and tag.
pub fn seal(payload: &[u8], tag: &[u8]) -> (token: String)
    ensures
        token@ == token_text(payload@, tag@),
{
    let mut token = String::new();
    push_hex(&mut token, payload);
    token.push('.');
    push_hex(&mut token, tag);
    assert(token@ =~= token_text(payload@, tag@));
    token
}

/// The payload and the tag of a token, if it has the shape of one.
pub fn open(token: &str) -> (r: Option<(Vec<u8>, Vec<u8>)>)
    ensures
        r is Some <==> token_parts(token@) is Some,
        r matches Some((payload, tag)) ==> token_parts(token@) == Some((payload@, tag@)),
{
    let codes = match ascii_codes(token) {
        Some(codes) => codes,
        None => {
            proof {
                if exists|j: int| splits_at(token@, j) {
                    let j = choose|j: int| splits_at(token@, j);
                    assert forall|k: int| 0 <= k < token@.len() implies '\0' <= (
                    #[trigger] token@[k]) <= '\u{7f}' by {
                        if k < j {
                            assert(token@.take(j)[k] == token@[k]);
                            assert(digit_value(token@.take(j)[k]) is Some);
                        } else if k > j {
                            assert(token@.skip(j + 1)[k - j - 1] == token@[k]);
                            assert(digit_value(token@.skip(j + 1)[k - j - 1]) is Some);
                        }
                    }
                }
            }
            return None;
        },
    };
    let n = codes.len();
    let mut i: usize = 0;
    while i < n && codes[i] != 46
        invariant
            n == codes@.len(),
            i <= n,
            codes_match(codes@, token@),
            forall|k: int| 0 <= k < i ==> (#[trigger] token@[k]) != '.',
        decreases n - i,
    {
        i = i + 1;
    }
    if i == n {
        return None;
    }
    assert(token@[i as int] == '.');
    proof {
        assert forall|j: int| splits_at(token@, j) implies j == i by {
            if j > i {
                assert(token@.take(j)[i as int] == '.');
                lemma_text_has_no_stop(token@.take(j), i as int);
            }
        }
        assert(token@.subrange(0, i as int) =~= token@.take(i as int));
        assert(token@.subrange(i + 1, n as int) =~= token@.skip(i + 1));
    }
    let payload = match read_hex(codes, 0, i, Ghost(token@)) {
        Some(bytes) => bytes,
        None => {
            return None;
        },
    };
    let tag = match read_hex(codes, i + 1, n, Ghost(token@)) {
        Some(bytes) => bytes,
        None => {
            return None;
        },
    };
    assert(splits_at(token@, i as int));
    Some((payload, tag))
}

/// Whether two byte strings are equal, in time that depends on their lengths
/// alone.
pub fn same_bytes(a: &[u8], b: &[u8]) -> (same: bool)
    ensures
        same == (a@ == b@),
{
    let n = a.len();
    if n != b.len() {
        return false;
    }
    let mut difference: u8 = 0;
    let mut i: usize = 0;
    assert(a@.take(0) =~= b@.take(0));
    while i < n
        invariant
            n == a@.len(),
            n == b@.len(),
            i <= n,
            difference == 0 <==> a@.take(i as int) == b@.take(i as int),
        decreases n - i,
    {
        let x = a[i];
        let y = b[i];
        let ghost before = difference;
        difference = difference | (x ^ y);
        proof {
            assert((before | (x ^ y)) == 0 <==> before == 0 && x == y) by (bit_vector);
            if a@.take(i + 1) == b@.take(i + 1) {
                assert(a@.take(i as int) =~= a@.take(i + 1).take(i as int));
                assert(b@.take(i as int) =~= b@.take(i + 1).take(i as int));
                assert(a@.take(i + 1)[i as int] == b@.take(i + 1)[i as int]);
            }
            if a@.take(i as int) == b@.take(i as int) && x == y {
                assert(a@.take(i + 1) =~= a@.take(i as int).push(x));
                assert(b@.take(i + 1) =~= b@.take(i as int).push(y));
            }
        }
        i = i + 1;
    }
    proof {
        assert(a@.take(n as int) =~= a@);
        assert(b@.take(n as int) =~= b@);
    }
    difference == 0
}

/// What a payload is worth, given the tag that came with it, the tag that
/// the key gives it, and the current time.
pub fn check(payload: &[u8], presented: &[u8], expected: &[u8], now: u64) -> (r: Result<
    Claims,
    DecodeError,
>)
    ensures
        result_view(r) == checked(payload@, presented@, expected@, now),
{
    if !same_bytes(presented, expected) {
        return Err(DecodeError::Invalid);
    }
    match read_claims(payload) {
        None => Err(DecodeError::Invalid),
        Some(claims) => {
            if claims.expires_at < now {
                Err(DecodeError::Expired)
            } else {
                Ok(claims)
            }
        },
    }
}

/// Makes the claims into a token under the signing key.
///
/// Fails exactly when a text of the claims does not fit in a field.
pub fn encode(claims: &Claims, key: &[u8]) -> (r: Result<String, EncodeError>)
    ensures
        encodable(claims@) ==> (r matches Ok(token) && token@ == encoded(claims@, key@)),
        !encodable(claims@) ==> r == Err::<String, EncodeError>(EncodeError::FieldTooLong),
{
    match payload_bytes(claims) {
        Err(e) => Err(e),
        Ok(payload) => {
            let tag = keyed_digest(key, payload.as_slice());
            Ok(seal(payload.as_slice(), tag.as_slice()))
        },
    }
}

/// Checks a token under the signing key at the time `now`, and gives the
/// claims that it holds.
///
/// The token is invalid where it is malformed or carries another tag than the
/// key gives its payload; it is expired where it is genuine and `now` lies
/// behind its expiry.
pub fn decode(token: &str, key: &[u8], now: u64) -> (r: Result<Claims, DecodeError>)
    ensures
        result_view(r) == decoded(token@, key@, now),
{
    match open(token) {
        None => Err(DecodeError::Invalid),
        Some((payload, tag)) => {
            let expected = keyed_digest(key, payload.as_slice());
            check(payload.as_slice(), tag.as_slice(), expected.as_slice(), now)
        },
    }
}

} // verus!
