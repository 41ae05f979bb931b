//! Compact signed tokens: `header.payload.signature`, each segment in
//! URL-safe base64 without padding, signed with HMAC-SHA256.
//!
//! The payload is handed in and out as bytes; turning claims into those bytes
//! and back is the caller's concern.
use vstd::prelude::*;
use crate::error::{AuthError, AuthErrorType};

verus! {

/// What `URL_SAFE_NO_PAD.encode` returns for the given bytes.
pub uninterp spec fn b64url_of(bytes: Seq<u8>) -> Seq<char>;

/// What `URL_SAFE_NO_PAD.decode` returns for the given text (`None` for an error).
pub uninterp spec fn b64url_decoded(text: Seq<char>) -> Option<Seq<u8>>;

/// What `STANDARD.decode` returns for the given text (`None` for an error).
pub uninterp spec fn b64_decoded(text: Seq<char>) -> Option<Seq<u8>>;

/// Whether `jsonwebtoken::decode_header` reads the token's header as one that
/// declares the `HS256` algorithm.
pub uninterp spec fn hs256_header(token: Seq<char>) -> bool;

/// The encoded HMAC-SHA256 signature of a message under a secret.
pub uninterp spec fn hs256_sig(message: Seq<char>, secret: Seq<u8>) -> Seq<char>;

/// The fixed header segment: `{"typ":"JWT","alg":"HS256"}` encoded.
pub open spec fn header_segment() -> Seq<char> {
    "eyJ0eXAiOiJKV1QiLCJhbGciOiJIUzI1NiJ9"@
}

pub open spec fn no_dot(s: Seq<char>) -> bool {
    forall|i: int| 0 <= i < s.len() ==> s[i] != '.'
}

/// Two segments joined by a dot.
pub open spec fn joined(a: Seq<char>, b: Seq<char>) -> Seq<char> {
    a + seq!['.'] + b
}

/// The message that is signed for a payload.
pub open spec fn signing_input(payload: Seq<u8>) -> Seq<char> {
    joined(header_segment(), b64url_of(payload))
}

/// The token that signing a payload under a secret yields.
pub open spec fn signed_token(payload: Seq<u8>, secret: Seq<u8>) -> Seq<char> {
    joined(signing_input(payload), hs256_sig(signing_input(payload), secret))
}

/// `t` is made of the three dot-free segments `h`, `b` and `s`.
pub open spec fn segments(t: Seq<char>, h: Seq<char>, b: Seq<char>, s: Seq<char>) -> bool {
    &&& no_dot(h)
    &&& no_dot(b)
    &&& no_dot(s)
    &&& t == joined(joined(h, b), s)
}

/// The payload that a token carries, if its header declares `HS256` (the
/// header this library writes does), its signature matches under `secret`,
/// and its payload segment decodes.
pub open spec fn token_payload(t: Seq<char>, secret: Seq<u8>) -> Option<Seq<u8>> {
    if exists|h: Seq<char>, b: Seq<char>, s: Seq<char>| segments(t, h, b, s) {
        let (h, b, s) = choose|h: Seq<char>, b: Seq<char>, s: Seq<char>| segments(t, h, b, s);
        if (h == header_segment() || hs256_header(t)) && s == hs256_sig(joined(h, b), secret) {
            b64url_decoded(b)
        } else {
            None
        }
    } else {
        None
    }
}

/// In a token made of three dot-free segments the dots stand exactly after
/// the first and after the second segment.
pub proof fn lemma_segment_dots(t: Seq<char>, h: Seq<char>, b: Seq<char>, s: Seq<char>)
    requires
        segments(t, h, b, s),
    ensures
        t.len() == h.len() + b.len() + s.len() + 2,
        t[h.len() as int] == '.',
        t[(h.len() + b.len() + 1) as int] == '.',
        forall|j: int|
            0 <= j < t.len() && j != h.len() && j != h.len() + b.len() + 1 ==> t[j] != '.',
        h == t.subrange(0, h.len() as int),
        b == t.subrange(h.len() + 1 as int, (h.len() + b.len() + 1) as int),
        s == t.subrange((h.len() + b.len() + 2) as int, t.len() as int),
{
    let hb = joined(h, b);
    assert(hb.len() == h.len() + b.len() + 1);
    assert forall|j: int| 0 <= j < t.len() && j != h.len() && j != h.len() + b.len() + 1
        implies t[j] != '.' by {
        if j < h.len() {
            assert(t[j] == h[j]);
        } else if j < hb.len() {
            assert(t[j] == hb[j]);
            assert(hb[j] == b[j - h.len() - 1]);
        } else {
            assert(t[j] == s[j - hb.len() - 1]);
        }
    }
    assert(t[h.len() as int] == hb[h.len() as int]);
    assert(h =~= t.subrange(0, h.len() as int));
    assert(b =~= t.subrange(h.len() + 1 as int, (h.len() + b.len() + 1) as int));
    assert(s =~= t.subrange((h.len() + b.len() + 2) as int, t.len() as int));
}

/// A token splits into three dot-free segments in at most one way.
pub proof fn lemma_segments_unique(
    t: Seq<char>,
    h1: Seq<char>,
    b1: Seq<char>,
    s1: Seq<char>,
    h2: Seq<char>,
    b2: Seq<char>,
    s2: Seq<char>,
)
    requires
        segments(t, h1, b1, s1),
        segments(t, h2, b2, s2),
    ensures
        h1 == h2,
        b1 == b2,
        s1 == s2,
{
    lemma_segment_dots(t, h1, b1, s1);
    lemma_segment_dots(t, h2, b2, s2);
    if h1.len() < h2.len() {
        assert(t[h1.len() as int] == '.');
    } else if h2.len() < h1.len() {
        assert(t[h2.len() as int] == '.');
    }
    if b1.len() < b2.len() {
        assert(t[(h1.len() + b1.len() + 1) as int] == '.');
    } else if b2.len() < b1.len() {
        assert(t[(h2.len() + b2.len() + 1) as int] == '.');
    }
}

/// Relies on `base64`'s `URL_SAFE_NO_PAD.encode`: its output uses only the
/// URL-safe alphabet (no '.'), and `URL_SAFE_NO_PAD.decode` gives the input back.
#[verifier::external_body]
fn b64url_encode(bytes: &Vec<u8>) -> (r: String)
    ensures
        r@ == b64url_of(bytes@),
        b64url_decoded(r@) == Some(bytes@),
        no_dot(r@),
{
    base64::Engine::encode(&base64::engine::general_purpose::URL_SAFE_NO_PAD, bytes)
}

/// Relies on `base64`'s `URL_SAFE_NO_PAD.decode`.
#[verifier::external_body]
fn b64url_decode(text: &str) -> (r: Option<Vec<u8>>)
    ensures
        match r {
            Some(b) => b64url_decoded(text@) == Some(b@),
            None => b64url_decoded(text@) is None,
        },
{
    base64::Engine::decode(&base64::engine::general_purpose::URL_SAFE_NO_PAD, text).ok()
}

/// Relies on `base64`'s `STANDARD.decode`.
#[verifier::external_body]
fn b64_decode(text: &str) -> (r: Option<Vec<u8>>)
    ensures
        match r {
            Some(b) => b64_decoded(text@) == Some(b@),
            None => b64_decoded(text@) is None,
        },
{
    base64::Engine::decode(&base64::engine::general_purpose::STANDARD, text).ok()
}

/// Relies on `jsonwebtoken::crypto::sign` with `HS256`: it always succeeds
/// and returns the HMAC encoded with `URL_SAFE_NO_PAD` (no '.').
#[verifier::external_body]
fn hs256_sign(message: &str, secret: &Vec<u8>) -> (r: Option<String>)
    ensures
        r is Some,
        r matches Some(s) ==> s@ == hs256_sig(message@, secret@),
        r matches Some(s) ==> no_dot(s@),
{
    let key = jsonwebtoken::EncodingKey::from_secret(secret);
    jsonwebtoken::crypto::sign(message.as_bytes(), &key, jsonwebtoken::Algorithm::HS256).ok()
}

/// Relies on `jsonwebtoken::decode_header`: whether it parses the header and
/// finds the algorithm `HS256` in it.
#[verifier::external_body]
fn header_is_hs256(token: &str) -> (r: bool)
    ensures
        r == hs256_header(token@),
{
    match jsonwebtoken::decode_header(token) {
        Ok(header) => matches!(header.alg, jsonwebtoken::Algorithm::HS256),
        Err(_) => false,
    }
}

/// Relies on `jsonwebtoken::crypto::verify` with `HS256`: it signs the message
/// again and compares the result with the given signature in constant time.
#[verifier::external_body]
fn hs256_verify(signature: &str, message: &str, secret: &Vec<u8>) -> (r: bool)
    ensures
        r == (signature@ == hs256_sig(message@, secret@)),
{
    let key = jsonwebtoken::DecodingKey::from_secret(secret);
    let alg = jsonwebtoken::Algorithm::HS256;
    jsonwebtoken::crypto::verify(signature, message.as_bytes(), &key, alg).unwrap_or(false)
}

/// The first '.' of `t` at or after `from`.
fn find_dot(t: &str, len: usize, from: usize) -> (r: Option<usize>)
    requires
        len == t@.len(),
        from <= len,
    ensures
        match r {
            Some(i) => from <= i < len && t@[i as int] == '.' && forall|j: int|
                from <= j < i ==> t@[j] != '.',
            None => forall|j: int| from <= j < len ==> t@[j] != '.',
        },
{
    let mut i: usize = from;
    while i < len
        invariant
            from <= i <= len,
            len == t@.len(),
            forall|j: int| from <= j < i ==> t@[j] != '.',
        decreases len - i,
    {
        if t.get_char(i) == '.' {
            return Some(i);
        }
        i = i + 1;
    }
    None
}

/// Signs a payload under `secret` into a token.
///
/// The token carries the payload back: verifying it under the same secret
/// yields exactly the payload that was signed.
pub fn sign_token(payload: &Vec<u8>, secret: &Vec<u8>) -> (r: Result<String, AuthError>)
    ensures
        r matches Ok(t) && t@ == signed_token(payload@, secret@) && token_payload(t@, secret@)
            == Some(payload@),
{
    let body = b64url_encode(payload);
    let message = "eyJ0eXAiOiJKV1QiLCJhbGciOiJIUzI1NiJ9".to_string().concat(".").concat(
        body.as_str(),
    );
    let signature = match hs256_sign(message.as_str(), secret) {
        Some(s) => s,
        None => return Err(AuthError::from_type(AuthErrorType::TokenGeneration)),
    };
    let token = message.concat(".").concat(signature.as_str());
    proof {
        reveal_strlit("eyJ0eXAiOiJKV1QiLCJhbGciOiJIUzI1NiJ9");
        reveal_strlit(".");
        let h = header_segment();
        assert(no_dot(h));
        assert(message@ =~= joined(h, body@));
        assert(token@ =~= joined(joined(h, body@), signature@));
        assert(segments(token@, h, body@, signature@));
        let (h2, b2, s2) = choose|h2: Seq<char>, b2: Seq<char>, s2: Seq<char>|
            segments(token@, h2, b2, s2);
        lemma_segments_unique(token@, h, body@, signature@, h2, b2, s2);
    }
    Ok(token)
}

/// Checks a token's header and signature under `secret` and returns the
/// payload it carries. The header must declare `HS256`; any malformed or
/// forged token gives `InvalidToken`.
pub fn verify_token(token: &str, secret: &Vec<u8>) -> (r: Result<Vec<u8>, AuthError>)
    ensures
        match r {
            Ok(p) => token_payload(token@, secret@) == Some(p@),
            Err(e) => token_payload(token@, secret@) is None && e.is_of(
                AuthErrorType::InvalidToken,
            ),
        },
{
    let invalid = AuthError::from_type(AuthErrorType::InvalidToken);
    let t = Ghost(token@);
    let len = token.unicode_len();
    let first = match find_dot(token, len, 0) {
        Some(i) => i,
        None => {
            proof {
                if exists|h: Seq<char>, b: Seq<char>, s: Seq<char>| segments(t@, h, b, s) {
                    let (h, b, s) = choose|h: Seq<char>, b: Seq<char>, s: Seq<char>|
                        segments(t@, h, b, s);
                    lemma_segment_dots(t@, h, b, s);
                }
            }
            return Err(invalid);
        },
    };
    let second = match find_dot(token, len, first + 1) {
        Some(i) => i,
        None => {
            proof {
                if exists|h: Seq<char>, b: Seq<char>, s: Seq<char>| segments(t@, h, b, s) {
                    let (h, b, s) = choose|h: Seq<char>, b: Seq<char>, s: Seq<char>|
                        segments(t@, h, b, s);
                    lemma_segment_dots(t@, h, b, s);
                    assert(t@[(h.len() + b.len() + 1) as int] == '.');
                }
            }
            return Err(invalid);
        },
    };
    if let Some(third) = find_dot(token, len, second + 1) {
        proof {
            if exists|h: Seq<char>, b: Seq<char>, s: Seq<char>| segments(t@, h, b, s) {
                let (h, b, s) = choose|h: Seq<char>, b: Seq<char>, s: Seq<char>|
                    segments(t@, h, b, s);
                lemma_segment_dots(t@, h, b, s);
                assert(t@[h.len() as int] == '.');
                assert(t@[third as int] == '.');
            }
        }
        return Err(invalid);
    }
    let header = token.substring_char(0, first);
    let body = token.substring_char(first + 1, second);
    let signature = token.substring_char(second + 1, len);
    let message = token.substring_char(0, second);
    proof {
        assert(no_dot(header@));
        assert(no_dot(body@));
        assert(no_dot(signature@));
        assert(message@ =~= joined(header@, body@));
        assert(t@ =~= joined(joined(header@, body@), signature@));
        assert(segments(t@, header@, body@, signature@));
        let (h2, b2, s2) = choose|h2: Seq<char>, b2: Seq<char>, s2: Seq<char>|
            segments(t@, h2, b2, s2);
        lemma_segments_unique(t@, header@, body@, signature@, h2, b2, s2);
        reveal_strlit("eyJ0eXAiOiJKV1QiLCJhbGciOiJIUzI1NiJ9");
    }
    if !(str_eq(header, "eyJ0eXAiOiJKV1QiLCJhbGciOiJIUzI1NiJ9") || header_is_hs256(token)) {
        return Err(invalid);
    }
    if !hs256_verify(signature, message, secret) {
        return Err(invalid);
    }
    match b64url_decode(body) {
        Some(p) => Ok(p),
        None => Err(invalid),
    }
}

/// Whether two strings hold the same characters.
pub fn str_eq(a: &str, b: &str) -> (r: bool)
    ensures
        r == (a@ == b@),
{
    let n = a.unicode_len();
    if n != b.unicode_len() {
        return false;
    }
    let mut i: usize = 0;
    while i < n
        invariant
            n == a@.len(),
            n == b@.len(),
            i <= n,
            forall|j: int| 0 <= j < i ==> a@[j] == b@[j],
        decreases n - i,
    {
        if a.get_char(i) != b.get_char(i) {
            return false;
        }
        i = i + 1;
    }
    assert(a@ =~= b@);
    true
}

/// Decodes the standard-base64 claims blob of a request header.
///
/// This path checks no signature: whoever sends the header chooses the
/// claims, so it is only for callers that are trusted by other means.
pub fn claims_blob(value: &str) -> (r: Result<Vec<u8>, AuthError>)
    ensures
        match r {
            Ok(b) => b64_decoded(value@) == Some(b@),
            Err(e) => b64_decoded(value@) is None && e.is_of(AuthErrorType::InvalidToken),
        },
{
    match b64_decode(value) {
        Some(b) => Ok(b),
        None => Err(AuthError::from_type(AuthErrorType::InvalidToken)),
    }
}

} // verus!
