//! Authentication of a webhook delivery by its `X-Hub-Signature-256` header.
use vstd::prelude::*;

verus! {

/// Why a delivery's signature was refused.
#[derive(Clone, Copy, Debug, PartialEq, Eq, Structural)]
pub enum AuthError {
    /// The header is not `sha256=` followed by hexadecimal digits.
    MalformedSignature,
    /// The digest is well formed but is not the HMAC of the body.
    InvalidSignature,
}

impl AuthError {
    /// The HTTP status that answers a refused delivery: 400 for a malformed
    /// header, 401 for a digest that does not match.
    pub fn status(&self) -> (r: u16)
        ensures
            r == (match *self {
                AuthError::MalformedSignature => 400u16,
                AuthError::InvalidSignature => 401u16,
            }),
    {
        match self {
            AuthError::MalformedSignature => 400,
            AuthError::InvalidSignature => 401,
        }
    }
}

/// The HMAC-SHA256 tag of `message` under `key`.
pub uninterp spec fn hmac_sha256(key: Seq<u8>, message: Seq<u8>) -> Seq<u8>;

/// The value of a hexadecimal digit, in either case.
pub open spec fn hex_value(c: char) -> Option<u8> {
    if '0' <= c && c <= '9' {
        Some((c as u32 - '0' as u32) as u8)
    } else if 'a' <= c && c <= 'f' {
        Some((c as u32 - 'a' as u32 + 10) as u8)
    } else if 'A' <= c && c <= 'F' {
        Some((c as u32 - 'A' as u32 + 10) as u8)
    } else {
        None
    }
}

/// The bytes that `s` spells with two hexadecimal digits each, high digit
/// first; `None` when `s` has odd length or a character that is not a digit.
pub open spec fn hex_decode(s: Seq<char>) -> Option<Seq<u8>>
    decreases s.len(),
{
    if s.len() == 0 {
        Some(Seq::empty())
    } else if s.len() < 2 {
        None
    } else {
        match (hex_value(s[0]), hex_value(s[1]), hex_decode(s.skip(2))) {
            (Some(hi), Some(lo), Some(rest)) => Some(seq![(hi * 16 + lo) as u8] + rest),
            _ => None,
        }
    }
}

/// The lower-case hexadecimal digit of `n < 16`.
pub open spec fn hex_digit(n: u8) -> char {
    if n < 10 {
        ('0' as u32 + n) as char
    } else {
        ('a' as u32 + n - 10) as char
    }
}

/// `bytes` in lower-case hexadecimal, two digits per byte.
pub open spec fn hex_lower(bytes: Seq<u8>) -> Seq<char>
    decreases bytes.len(),
{
    if bytes.len() == 0 {
        Seq::empty()
    } else {
        seq![hex_digit(bytes[0] / 16), hex_digit(bytes[0] % 16)] + hex_lower(bytes.drop_first())
    }
}

/// What checking the header `header` against `body` under `secret` gives.
pub open spec fn signature_check(body: Seq<u8>, secret: Seq<u8>, header: Seq<char>) -> Result<(), AuthError> {
    if header.len() < 7 || header.take(7) != "sha256="@ {
        Err(AuthError::MalformedSignature)
    } else {
        match hex_decode(header.skip(7)) {
            None => Err(AuthError::MalformedSignature),
            Some(digest) => if digest == hmac_sha256(secret, body) {
                Ok(())
            } else {
                Err(AuthError::InvalidSignature)
            },
        }
    }
}

/// Relies on hex::decode: it accepts exactly the strings of even length made
/// of digits `0-9`, `a-f`, `A-F`, and gives one byte per pair, high digit first.
#[verifier::external_body]
fn decode_hex(s: &str) -> (r: Option<Vec<u8>>)
    ensures
        match r {
            Some(b) => hex_decode(s@) == Some(b@),
            None => hex_decode(s@) is None,
        },
{
    hex::decode(s).ok()
}

/// Relies on hmac's `Mac::new_from_slice`, `Mac::update` and
/// `Mac::verify_slice` for `Hmac<Sha256>`: a key of any length is taken, and
/// the tag is accepted exactly when it equals the HMAC-SHA256 of the message,
/// compared in constant time.
#[verifier::external_body]
fn hmac_sha256_accepts(key: &[u8], message: &[u8], tag: &[u8]) -> (r: bool)
    ensures
        r == (tag@ == hmac_sha256(key@, message@)),
{
    match <hmac::Hmac<sha2::Sha256> as hmac::Mac>::new_from_slice(key) {
        Ok(mut mac) => {
            hmac::Mac::update(&mut mac, message);
            hmac::Mac::verify_slice(mac, tag).is_ok()
        },
        Err(_) => false,
    }
}

/// Checks that `header` carries the HMAC-SHA256 of `body` under `secret`,
/// written `sha256=` and hexadecimal digits. The digests are compared in
/// constant time.
pub fn verify_signature(body: &[u8], secret: &[u8], header: &str) -> (r: Result<(), AuthError>)
    ensures
        r == signature_check(body@, secret@, header@),
{
    let n = header.unicode_len();
    if n < 7 {
        return Err(AuthError::MalformedSignature);
    }
    let prefix = header.substring_char(0, 7);
    proof {
        assert(header@.subrange(0, 7) =~= header@.take(7));
    }
    if String::from_str(prefix) != String::from_str("sha256=") {
        return Err(AuthError::MalformedSignature);
    }
    let digits = header.substring_char(7, n);
    proof {
        assert(header@.subrange(7, n as int) =~= header@.skip(7));
    }
    match decode_hex(digits) {
        None => Err(AuthError::MalformedSignature),
        Some(digest) => if hmac_sha256_accepts(secret, body, digest.as_slice()) {
            Ok(())
        } else {
            Err(AuthError::InvalidSignature)
        },
    }
}

proof fn lemma_hex_digit(n: u8)
    requires
        n < 16,
    ensures
        hex_value(hex_digit(n)) == Some(n),
{
}

proof fn lemma_hex_round_trip(bytes: Seq<u8>)
    ensures
        hex_decode(hex_lower(bytes)) == Some(bytes),
    decreases bytes.len(),
{
    if bytes.len() > 0 {
        let b = bytes[0];
        lemma_hex_round_trip(bytes.drop_first());
        lemma_hex_digit(b / 16);
        lemma_hex_digit(b % 16);
        let s = hex_lower(bytes);
        assert(s.skip(2) =~= hex_lower(bytes.drop_first()));
        assert(((b / 16) * 16 + b % 16) as u8 == b);
        assert(seq![b] + bytes.drop_first() =~= bytes);
    }
}

/// A header that carries `digest` in lower-case hexadecimal is accepted
/// exactly when `digest` is the HMAC of the body under the secret: the tag
/// computed for that body and secret always passes, and any other digest is
/// refused as invalid, never as malformed.
pub proof fn lemma_signature_determinism(body: Seq<u8>, secret: Seq<u8>, digest: Seq<u8>)
    ensures
        signature_check(body, secret, "sha256="@ + hex_lower(digest)) == (if digest == hmac_sha256(
            secret,
            body,
        ) {
            Ok::<(), AuthError>(())
        } else {
            Err::<(), AuthError>(AuthError::InvalidSignature)
        }),
        signature_check(body, secret, "sha256="@ + hex_lower(hmac_sha256(secret, body))) == Ok::<
            (),
            AuthError,
        >(()),
{
    reveal_strlit("sha256=");
    let header = "sha256="@ + hex_lower(digest);
    assert(header.take(7) =~= "sha256="@);
    assert(header.skip(7) =~= hex_lower(digest));
    lemma_hex_round_trip(digest);
    let good = "sha256="@ + hex_lower(hmac_sha256(secret, body));
    assert(good.take(7) =~= "sha256="@);
    assert(good.skip(7) =~= hex_lower(hmac_sha256(secret, body)));
    lemma_hex_round_trip(hmac_sha256(secret, body));
}

/// A body altered after signing is refused as invalid: the header computed
/// for `body` does not pass for `tampered`, whenever the two bodies have
/// different tags under the secret.
pub proof fn lemma_tampered_body_refused(body: Seq<u8>, tampered: Seq<u8>, secret: Seq<u8>)
    requires
        hmac_sha256(secret, tampered) != hmac_sha256(secret, body),
    ensures
        signature_check(tampered, secret, "sha256="@ + hex_lower(hmac_sha256(secret, body)))
            == Err::<(), AuthError>(AuthError::InvalidSignature),
{
    lemma_signature_determinism(tampered, secret, hmac_sha256(secret, body));
}

} // verus!
