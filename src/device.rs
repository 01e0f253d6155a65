use vstd::prelude::*;

verus! {

/// Lowercase hex of HMAC-SHA256 keyed by `key` over the bytes of `data`.
pub uninterp spec fn hmac_sha256_hex(key: Seq<char>, data: Seq<char>) -> Seq<char>;

/// A lowercase hexadecimal digit.
pub open spec fn is_lower_hex_digit(c: char) -> bool {
    ('0' <= c && c <= '9') || ('a' <= c && c <= 'f')
}

/// Text of 64 lowercase hexadecimal digits, the form of every keyed hash here.
pub open spec fn is_digest_hex(s: Seq<char>) -> bool {
    s.len() == 64 && forall|i: int| 0 <= i < s.len() ==> is_lower_hex_digit(#[trigger] s[i])
}

/// Relies on hmac's `Hmac<Sha256>` (which takes a key of any length) and on
/// hex::encode, which writes two lowercase digits for each of the 32 bytes.
#[verifier::external_body]
fn keyed_hash_hex(key: &str, data: &str) -> (r: String)
    ensures
        r@ == hmac_sha256_hex(key@, data@),
        is_digest_hex(r@),
{
    let mut mac = <hmac::Hmac<sha2::Sha256> as hmac::Mac>::new_from_slice(key.as_bytes())
        .expect("HMAC takes a key of any length");
    hmac::Mac::update(&mut mac, data.as_bytes());
    hex::encode(hmac::Mac::finalize(mac).into_bytes())
}

pub open spec fn is_ascii_alphanumeric(c: char) -> bool {
    ('a' <= c && c <= 'z') || ('A' <= c && c <= 'Z') || ('0' <= c && c <= '9')
}

/// Relies on rand's `Alphanumeric` distribution sampled from the thread
/// generator: `len` characters drawn from `[A-Za-z0-9]`.
#[verifier::external_body]
fn random_alphanumeric(len: usize) -> (r: String)
    ensures
        r@.len() == len,
        forall|i: int| 0 <= i < r@.len() ==> is_ascii_alphanumeric(#[trigger] r@[i]),
{
    rand::distr::SampleString::sample_string(&rand::distr::Alphanumeric, &mut rand::rng(), len)
}

/// Relies on uuid's `Uuid::new_v4`, written in its 36-character hyphenated form.
#[verifier::external_body]
fn random_uuid() -> (r: String)
    ensures
        r@.len() == 36,
{
    uuid::Uuid::new_v4().to_string()
}

/// Relies on chrono's `Utc::now`, written as RFC 3339 text.
#[verifier::external_body]
fn now_rfc3339() -> (r: String) {
    chrono::Utc::now().to_rfc3339()
}

/// A random alphanumeric password of the given length.
pub fn generate_password(length: usize) -> (r: String)
    ensures
        r@.len() == length,
        forall|i: int| 0 <= i < r@.len() ==> is_ascii_alphanumeric(#[trigger] r@[i]),
{
    random_alphanumeric(length)
}

/// Pseudonymizes an identifier (or a presented device secret) under the
/// server's keyed-hash secret.
pub fn hash_id_with_secret(secret: &str, id: &str) -> (r: String)
    ensures
        r@ == hmac_sha256_hex(secret@, id@),
        is_digest_hex(r@),
{
    keyed_hash_hex(secret, id)
}

/// The seed text a device secret is derived from.
pub open spec fn seed_text(id: Seq<char>, time: Seq<char>, salt: Seq<char>) -> Seq<char> {
    id + ":"@ + time + ":"@ + salt
}

pub fn device_seed(id: &str, time: &str, salt: &str) -> (r: String)
    ensures
        r@ == seed_text(id@, time@, salt@),
{
    let mut s = id.to_owned();
    s.append(":");
    s.append(time);
    s.append(":");
    s.append(salt);
    s
}

/// The device secret for a seed, and the verifier stored in its place.
pub fn device_token_from_seed(secret: &str, seed: &str) -> (r: (String, String))
    ensures
        r.0@ == hmac_sha256_hex(secret@, seed@),
        r.1@ == hmac_sha256_hex(secret@, r.0@),
        is_digest_hex(r.0@),
        is_digest_hex(r.1@),
{
    let device_token = keyed_hash_hex(secret, seed);
    let verifier = keyed_hash_hex(secret, device_token.as_str());
    (device_token, verifier)
}

/// A fresh device secret, from a random identifier, the current time and a
/// random salt, with its verifier. Only the verifier is meant to be stored.
pub fn generate_secure_device_token(secret: &str) -> (r: (String, String))
    ensures
        exists|id: Seq<char>, time: Seq<char>, salt: Seq<char>|
            r.0@ == hmac_sha256_hex(secret@, #[trigger] seed_text(id, time, salt)),
        r.1@ == hmac_sha256_hex(secret@, r.0@),
        is_digest_hex(r.0@),
        is_digest_hex(r.1@),
{
    let id = random_uuid();
    let time = now_rfc3339();
    let salt = random_alphanumeric(32);
    let seed = device_seed(id.as_str(), time.as_str(), salt.as_str());
    device_token_from_seed(secret, seed.as_str())
}

/// Whether a presented device secret re-derives the stored verifier.
pub fn device_secret_matches(secret: &str, presented: &str, verifier: &str) -> (r: bool)
    ensures
        r == (hmac_sha256_hex(secret@, presented@) == verifier@),
{
    let derived = keyed_hash_hex(secret, presented);
    derived == verifier.to_owned()
}

} // verus!
