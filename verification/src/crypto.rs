use argon2::{PasswordHasher, PasswordVerifier};
use base64::Engine;
use rand::distributions::DistString;
use vstd::prelude::*;

verus! {

/// Whether `argon2::password_hash::PasswordHash::new` reads `phc` as a
/// password hash in PHC string format.
pub uninterp spec fn phc_parses(phc: Seq<char>) -> bool;

/// Whether Argon2, with the algorithm, version, parameters and salt that the
/// PHC string `phc` records, hashes `password` to the output `phc` records.
pub uninterp spec fn argon2_accepts(password: Seq<u8>, phc: Seq<char>) -> bool;

/// The PHC string of the Argon2 hash (default parameters) of `password`
/// under the B64 salt `salt`; none when `salt` is not a valid B64 salt or
/// hashing fails.
pub uninterp spec fn argon2_phc(password: Seq<u8>, salt: Seq<char>) -> Option<Seq<char>>;

/// `PasswordHash::new(phc).is_ok()`.
#[verifier::external_body]
pub(crate) fn phc_is_well_formed(phc: &str) -> (r: bool)
    ensures
        r == phc_parses(phc@),
{
    argon2::PasswordHash::new(phc).is_ok()
}

/// `Argon2::default().verify_password(password, &PasswordHash::new(phc)?)`,
/// on a hash string that parses; whether it succeeds is `argon2_accepts`.
#[verifier::external_body]
pub(crate) fn argon2_verify(password: &[u8], phc: &str) -> (r: bool)
    requires
        phc_parses(phc@),
    ensures
        r == argon2_accepts(password@, phc@),
{
    match argon2::PasswordHash::new(phc) {
        Ok(hash) => argon2::Argon2::default().verify_password(password, &hash).is_ok(),
        Err(_) => false,
    }
}

/// Whether `text` is between 8 and 48 bytes written in B64, the standard
/// Base64 alphabet without padding: a salt that `SaltString::from_b64`
/// takes (4 to 64 characters of that alphabet) and that Argon2 hashes with
/// (at least 8 bytes once decoded).
pub open spec fn is_argon2_salt(text: Seq<char>) -> bool {
    exists|bytes: Seq<u8>| 8 <= bytes.len() <= 48 && text == base64_std_nopad(bytes)
}

/// `Argon2::default().hash_password(password, &SaltString::from_b64(salt)?)`
/// written as a PHC string; the outcome is `argon2_phc`. As the crate's
/// documentation shows, the hash string parses and verifies the password
/// it was made from. As the sources of `password-hash` and `argon2` show,
/// hashing fails only on a salt that is not valid B64 of 4 to 64
/// characters, a salt under 8 bytes, or a password over `0xFFFF_FFFF`
/// bytes: so it succeeds on a password within that bound and a salt that is
/// the B64 of 8 to 48 bytes.
#[verifier::external_body]
pub(crate) fn argon2_hash(password: &[u8], salt: &str) -> (r: Option<String>)
    ensures
        r is Some <==> argon2_phc(password@, salt@) is Some,
        is_argon2_salt(salt@) && password@.len() <= 0xFFFF_FFFF ==> r is Some,
        r matches Some(h) ==> h@ == argon2_phc(password@, salt@)->0 && phc_parses(h@)
            && argon2_accepts(password@, h@),
{
    let salt = match argon2::password_hash::SaltString::from_b64(salt) {
        Ok(s) => s,
        Err(_) => return None,
    };
    match argon2::Argon2::default().hash_password(password, &salt) {
        Ok(h) => Some(h.to_string()),
        Err(_) => None,
    }
}

/// Whether `text` is 16 bytes written in B64, the standard Base64 alphabet
/// without padding.
pub open spec fn is_b64_of_16_bytes(text: Seq<char>) -> bool {
    exists|bytes: Seq<u8>| bytes.len() == 16 && text == base64_std_nopad(bytes)
}

/// `SaltString::generate(&mut OsRng)`: a fresh random salt. As the crate's
/// source shows, it is 16 random bytes written in B64, the standard Base64
/// alphabet without padding; which bytes is left unsaid, as it is chance.
#[verifier::external_body]
pub(crate) fn random_salt() -> (r: String)
    ensures
        is_b64_of_16_bytes(r@),
{
    argon2::password_hash::SaltString::generate(&mut argon2::password_hash::rand_core::OsRng).as_str().to_string()
}

/// The Base64 digit of the six bits `d`: `A`–`Z`, `a`–`z`, `0`–`9`, then
/// `+` and `/` in the standard alphabet, `-` and `_` in the URL-safe one.
pub open spec fn base64_digit(d: int, url_safe: bool) -> char {
    if d < 26 {
        (65 + d) as u32 as char
    } else if d < 52 {
        (71 + d) as u32 as char
    } else if d < 62 {
        (d - 4) as u32 as char
    } else if d == 62 {
        if url_safe { '-' } else { '+' }
    } else {
        if url_safe { '_' } else { '/' }
    }
}

/// Base64 of `bytes`: each group of three bytes becomes four digits, a last
/// group of two bytes three digits and of one byte two, followed, when
/// `padded`, by `=` up to four characters.
pub open spec fn base64_encoded(bytes: Seq<u8>, url_safe: bool, padded: bool) -> Seq<char>
    decreases bytes.len(),
{
    if bytes.len() >= 3 {
        let a = bytes[0] as int;
        let b = bytes[1] as int;
        let c = bytes[2] as int;
        seq![
            base64_digit(a / 4, url_safe),
            base64_digit((a % 4) * 16 + b / 16, url_safe),
            base64_digit((b % 16) * 4 + c / 64, url_safe),
            base64_digit(c % 64, url_safe),
        ] + base64_encoded(bytes.subrange(3, bytes.len() as int), url_safe, padded)
    } else if bytes.len() == 2 {
        let a = bytes[0] as int;
        let b = bytes[1] as int;
        seq![
            base64_digit(a / 4, url_safe),
            base64_digit((a % 4) * 16 + b / 16, url_safe),
            base64_digit((b % 16) * 4, url_safe),
        ] + if padded { seq!['='] } else { Seq::empty() }
    } else if bytes.len() == 1 {
        let a = bytes[0] as int;
        seq![base64_digit(a / 4, url_safe), base64_digit((a % 4) * 16, url_safe)] + if padded {
            seq!['=', '=']
        } else {
            Seq::empty()
        }
    } else {
        Seq::empty()
    }
}

/// The standard Base64 encoding of `bytes`, without padding.
pub open spec fn base64_std_nopad(bytes: Seq<u8>) -> Seq<char> {
    base64_encoded(bytes, false, false)
}

/// The URL-safe Base64 encoding of `bytes`, with padding.
pub open spec fn base64_url(bytes: Seq<u8>) -> Seq<char> {
    base64_encoded(bytes, true, true)
}

/// The bytes that URL-safe Base64 decoding with canonical padding reads from
/// `text`: it reads exactly the texts that are the padded URL-safe encoding
/// of some bytes, and gives those bytes.
pub open spec fn base64_url_decoded(text: Seq<char>) -> Option<Seq<u8>> {
    if exists|bytes: Seq<u8>| base64_url(bytes) == text {
        Some(choose|bytes: Seq<u8>| base64_url(bytes) == text)
    } else {
        None
    }
}

/// `base64::engine::general_purpose::STANDARD_NO_PAD.encode(bytes)`.
#[verifier::external_body]
pub(crate) fn encode_std_nopad(bytes: &[u8]) -> (r: String)
    ensures
        r@ == base64_std_nopad(bytes@),
{
    base64::engine::general_purpose::STANDARD_NO_PAD.encode(bytes)
}

/// Distinct six-bit values have distinct digits, and no digit is `=`.
proof fn lemma_base64_digit_injective(x: int, y: int, url_safe: bool)
    requires
        0 <= x < 64,
        0 <= y < 64,
    ensures
        base64_digit(x, url_safe) == base64_digit(y, url_safe) ==> x == y,
        base64_digit(x, url_safe) != '=',
{
    if base64_digit(x, url_safe) == base64_digit(y, url_safe) {
        assert(base64_digit(x, url_safe) as u32 == base64_digit(y, url_safe) as u32);
    }
    assert(base64_digit(x, url_safe) as u32 != '=' as u32);
}

/// Bytes whose digits agree are the same bytes: a byte is its high six bits
/// and its low two, and so on across a group of three.
proof fn lemma_base64_group(a: int, b: int, c: int, p: int, q: int, r: int)
    requires
        0 <= a < 256,
        0 <= b < 256,
        0 <= c < 256,
        0 <= p < 256,
        0 <= q < 256,
        0 <= r < 256,
    ensures
        a / 4 == p / 4 && (a % 4) * 16 + b / 16 == (p % 4) * 16 + q / 16 ==> a == p && b / 16 == q / 16,
        a / 4 == p / 4 && (a % 4) * 16 == (p % 4) * 16 ==> a == p,
        b / 16 == q / 16 && (b % 16) * 4 + c / 64 == (q % 16) * 4 + r / 64 ==> b == q && c / 64 == r / 64,
        b / 16 == q / 16 && (b % 16) * 4 == (q % 16) * 4 ==> b == q,
        c / 64 == r / 64 && c % 64 == r % 64 ==> c == r,
{
    assert(a / 4 == p / 4 && (a % 4) * 16 + b / 16 == (p % 4) * 16 + q / 16 ==> a == p && b / 16 == q / 16) by (nonlinear_arith)
        requires 0 <= a < 256, 0 <= b < 256, 0 <= p < 256, 0 <= q < 256;
    assert(b / 16 == q / 16 && (b % 16) * 4 + c / 64 == (q % 16) * 4 + r / 64 ==> b == q && c / 64 == r / 64) by (nonlinear_arith)
        requires 0 <= b < 256, 0 <= c < 256, 0 <= q < 256, 0 <= r < 256;
    assert(a / 4 == p / 4 && (a % 4) * 16 == (p % 4) * 16 ==> a == p) by (nonlinear_arith)
        requires 0 <= a < 256, 0 <= p < 256;
    assert(b / 16 == q / 16 && (b % 16) * 4 == (q % 16) * 4 ==> b == q) by (nonlinear_arith)
        requires 0 <= b < 256, 0 <= q < 256;
    assert(c / 64 == r / 64 && c % 64 == r % 64 ==> c == r) by (nonlinear_arith)
        requires 0 <= c < 256, 0 <= r < 256;
}

/// Padded encodings of different bytes differ: padded Base64 can be read
/// back without ambiguity.
proof fn lemma_base64_padded_injective(x: Seq<u8>, y: Seq<u8>, url_safe: bool)
    requires
        base64_encoded(x, url_safe, true) == base64_encoded(y, url_safe, true),
    ensures
        x == y,
    decreases x.len(),
{
    let ex = base64_encoded(x, url_safe, true);
    let ey = base64_encoded(y, url_safe, true);
    if x.len() == 0 || y.len() == 0 {
        assert(ex.len() == 0 && ey.len() == 0);
        assert(x =~= y);
        return;
    }
    let (a, b, p, q) = (x[0] as int, if x.len() > 1 { x[1] as int } else { 0 }, y[0] as int, if y.len() > 1 { y[1] as int } else { 0 });
    let (c, r) = (if x.len() > 2 { x[2] as int } else { 0 }, if y.len() > 2 { y[2] as int } else { 0 });
    assert(ex[0] == ey[0] && ex[1] == ey[1] && ex[2] == ey[2] && ex[3] == ey[3]);
    lemma_base64_digit_injective(a / 4, p / 4, url_safe);
    lemma_base64_group(a, b, c, p, q, r);
    if x.len() >= 3 {
        lemma_base64_digit_injective((a % 4) * 16 + b / 16, (p % 4) * 16 + q / 16, url_safe);
        lemma_base64_digit_injective((b % 16) * 4 + c / 64, (q % 16) * 4 + r / 64, url_safe);
        lemma_base64_digit_injective((b % 16) * 4 + c / 64, (q % 16) * 4, url_safe);
        lemma_base64_digit_injective(c % 64, r % 64, url_safe);
        lemma_base64_digit_injective((b % 16) * 4 + c / 64, 0, url_safe);
        lemma_base64_digit_injective(c % 64, 0, url_safe);
        if y.len() >= 3 {
            let xs = x.subrange(3, x.len() as int);
            let ys = y.subrange(3, y.len() as int);
            assert(base64_encoded(xs, url_safe, true) =~= ex.subrange(4, ex.len() as int));
            assert(base64_encoded(ys, url_safe, true) =~= ey.subrange(4, ey.len() as int));
            lemma_base64_padded_injective(xs, ys, url_safe);
            assert(x =~= seq![x[0], x[1], x[2]] + xs);
            assert(y =~= seq![y[0], y[1], y[2]] + ys);
        }
    } else if x.len() == 2 {
        lemma_base64_digit_injective((a % 4) * 16 + b / 16, (p % 4) * 16 + q / 16, url_safe);
        lemma_base64_digit_injective((b % 16) * 4, (q % 16) * 4 + r / 64, url_safe);
        lemma_base64_digit_injective((b % 16) * 4, (q % 16) * 4, url_safe);
        lemma_base64_digit_injective(0, r % 64, url_safe);
        lemma_base64_digit_injective((b % 16) * 4, 0, url_safe);
        assert(x =~= y);
    } else {
        lemma_base64_digit_injective((a % 4) * 16, (p % 4) * 16 + q / 16, url_safe);
        lemma_base64_digit_injective((a % 4) * 16, (p % 4) * 16, url_safe);
        lemma_base64_digit_injective((q % 16) * 4 + r / 64, 0, url_safe);
        lemma_base64_digit_injective((q % 16) * 4, 0, url_safe);
        lemma_base64_digit_injective(0, r % 64, url_safe);
        assert(x =~= y);
    }
}

/// Decoding the URL-safe encoding of bytes gives the bytes back.
pub proof fn lemma_base64_url_round_trip(bytes: Seq<u8>)
    ensures
        base64_url_decoded(base64_url(bytes)) == Some(bytes),
{
    let text = base64_url(bytes);
    assert(exists|b: Seq<u8>| base64_url(b) == text);
    let chosen = choose|b: Seq<u8>| base64_url(b) == text;
    lemma_base64_padded_injective(chosen, bytes, true);
}

/// `base64::engine::general_purpose::URL_SAFE.encode(bytes)`.
#[verifier::external_body]
pub(crate) fn encode_url_safe(bytes: &[u8]) -> (r: String)
    ensures
        r@ == base64_url(bytes@),
{
    base64::engine::general_purpose::URL_SAFE.encode(bytes)
}

/// `base64::engine::general_purpose::URL_SAFE.decode(text)`. The engine
/// requires canonical padding and no stray trailing bits, so, as its
/// source shows, it reads exactly the padded URL-safe encodings of bytes.
#[verifier::external_body]
pub(crate) fn decode_url_safe(text: &str) -> (r: Option<Vec<u8>>)
    ensures
        r is Some <==> base64_url_decoded(text@) is Some,
        r matches Some(b) ==> b@ == base64_url_decoded(text@)->0,
{
    base64::engine::general_purpose::URL_SAFE.decode(text).ok()
}

/// Whether `email_address::EmailAddress::is_valid` accepts `text`.
pub uninterp spec fn email_valid(text: Seq<char>) -> bool;

/// `email_address::EmailAddress::is_valid(text)`.
#[verifier::external_body]
pub(crate) fn is_valid_email(text: &str) -> (r: bool)
    ensures
        r == email_valid(text@),
{
    email_address::EmailAddress::is_valid(text)
}

/// An ASCII letter or digit.
pub open spec fn is_alphanumeric(c: char) -> bool {
    ('a' <= c && c <= 'z') || ('A' <= c && c <= 'Z') || ('0' <= c && c <= '9')
}

/// `Alphanumeric.sample_string(&mut rand::thread_rng(), len)`: `len` random
/// characters, each an ASCII letter or digit, as the crate documents.
#[verifier::external_body]
pub(crate) fn random_alphanumeric(len: usize) -> (r: String)
    ensures
        r@.len() == len,
        forall|i: int| 0 <= i < len ==> is_alphanumeric(#[trigger] r@[i]),
{
    rand::distributions::Alphanumeric.sample_string(&mut rand::thread_rng(), len)
}

/// The name and value of the cookie that `actix_web::cookie::Cookie::parse`
/// reads from `text`, if it reads one.
pub uninterp spec fn cookie_parse(text: Seq<char>) -> Option<(Seq<char>, Seq<char>)>;

/// `Cookie::parse(text)`, its name and value taken out.
#[verifier::external_body]
pub(crate) fn parse_cookie(text: &str) -> (r: Option<(String, String)>)
    ensures
        r is Some <==> cookie_parse(text@) is Some,
        r matches Some(c) ==> cookie_parse(text@) == Some((c.0@, c.1@)),
{
    match actix_web::cookie::Cookie::parse(text) {
        Ok(c) => Some((c.name().to_string(), c.value().to_string())),
        Err(_) => None,
    }
}

} // verus!
