//! Authentication of a client in the obs-websocket handshake.
//!
//! The server hands the client a salt and a challenge. The client proves that
//! it knows the password by sending
//! `base64(sha256(base64(sha256(password ++ salt)) ++ challenge))`.
use vstd::prelude::*;
use base64::Engine;
use sha2::Digest;
use rand::Rng;
use crate::text::str_eq;

verus! {

/// The SHA-256 digest of a byte string.
pub uninterp spec fn sha256(data: Seq<u8>) -> Seq<u8>;

/// The base64 digit for a value below 64: `A`-`Z`, `a`-`z`, `0`-`9`, `+`, `/`.
pub open spec fn base64_digit(v: int) -> char {
    if v < 26 {
        (65 + v) as char
    } else if v < 52 {
        (97 + v - 26) as char
    } else if v < 62 {
        (48 + v - 52) as char
    } else if v == 62 {
        '+'
    } else {
        '/'
    }
}

/// Whether `c` is one of the 64 base64 digits.
pub open spec fn is_base64_digit(c: char) -> bool {
    ('A' <= c <= 'Z') || ('a' <= c <= 'z') || ('0' <= c <= '9') || c == '+' || c == '/'
}

/// The standard, padded base64 encoding of a byte string: each group of
/// three bytes gives four digits of six bits each; a last group of one or two
/// bytes gives two or three digits, padded with `=` to four.
pub open spec fn base64_standard(data: Seq<u8>) -> Seq<char>
    decreases data.len(),
{
    if data.len() == 0 {
        Seq::empty()
    } else if data.len() == 1 {
        let a = data[0] as int;
        seq![base64_digit(a / 4), base64_digit((a % 4) * 16), '=', '=']
    } else if data.len() == 2 {
        let a = data[0] as int;
        let b = data[1] as int;
        seq![base64_digit(a / 4), base64_digit((a % 4) * 16 + b / 16), base64_digit((b % 16) * 4), '=']
    } else {
        let a = data[0] as int;
        let b = data[1] as int;
        let c = data[2] as int;
        seq![
            base64_digit(a / 4),
            base64_digit((a % 4) * 16 + b / 16),
            base64_digit((b % 16) * 4 + c / 64),
            base64_digit(c % 64),
        ] + base64_standard(data.subrange(3, data.len() as int))
    }
}

/// The encoding is four characters for every started group of three bytes;
/// all are digits but the padding, which is one `=` after two leftover bytes
/// and two after one.
pub proof fn lemma_base64_shape(data: Seq<u8>)
    ensures
        ({
            let r = base64_standard(data);
            let n = data.len() as int;
            let full = 4 * (n / 3);
            &&& r.len() == 4 * ((n + 2) / 3)
            &&& forall|i: int| 0 <= i < full ==> is_base64_digit(#[trigger] r[i])
            &&& n % 3 == 1 ==> is_base64_digit(r[full]) && is_base64_digit(r[full + 1]) && r[full + 2] == '='
                && r[full + 3] == '='
            &&& n % 3 == 2 ==> is_base64_digit(r[full]) && is_base64_digit(r[full + 1]) && is_base64_digit(
                r[full + 2],
            ) && r[full + 3] == '='
        }),
    decreases data.len(),
{
    let n = data.len() as int;
    if n >= 3 {
        let rest = data.subrange(3, n);
        let m = rest.len() as int;
        lemma_base64_shape(rest);
        let r = base64_standard(data);
        let head = r.subrange(0, 4);
        let tail = base64_standard(rest);
        assert(r =~= head + tail);
        assert forall|i: int| 0 <= i < 4 * (n / 3) implies is_base64_digit(#[trigger] r[i]) by {
            if i >= 4 {
                assert(r[i] == tail[i - 4]);
            }
        }
        if n % 3 != 0 {
            assert(r[4 * (n / 3)] == tail[4 * (m / 3)]);
            assert(r[4 * (n / 3) + 1] == tail[4 * (m / 3) + 1]);
            assert(r[4 * (n / 3) + 2] == tail[4 * (m / 3) + 2]);
            assert(r[4 * (n / 3) + 3] == tail[4 * (m / 3) + 3]);
        }
    }
}

/// `sha2::Sha256::digest`: the digest of `data`, which is named `sha256` and
/// is 32 bytes long.
#[verifier::external_body]
fn sha256_digest(data: &[u8]) -> (r: Vec<u8>)
    ensures
        r@ == sha256(data@),
        r@.len() == 32,
{
    sha2::Sha256::digest(data).to_vec()
}

/// `base64::engine::general_purpose::STANDARD.encode`: the standard, padded
/// base64 encoding of `data`, as `base64_standard` spells it out. The input
/// length bound keeps the encoder's length computation from overflowing,
/// where it panics.
#[verifier::external_body]
fn base64_encode(data: &[u8]) -> (r: String)
    requires
        data@.len() <= usize::MAX / 2,
    ensures
        r@ == base64_standard(data@),
{
    base64::engine::general_purpose::STANDARD.encode(data)
}

/// `rand::Rng::fill` on the thread-local generator: `len` random bytes.
/// Nothing is stated of their values.
#[verifier::external_body]
fn random_bytes(len: usize) -> (r: Vec<u8>)
    ensures
        r@.len() == len,
{
    let mut buf = vec![0u8; len];
    rand::thread_rng().fill(&mut buf[..]);
    buf
}

/// The bytes of `a` followed by those of `b`.
fn concat_bytes(a: &[u8], b: &[u8]) -> (r: Vec<u8>)
    ensures
        r@ == a@ + b@,
{
    let mut r: Vec<u8> = Vec::new();
    let mut i: usize = 0;
    while i < a.len()
        invariant
            i <= a.len(),
            r@ == a@.take(i as int),
        decreases a.len() - i,
    {
        r.push(a[i]);
        i = i + 1;
        assert(r@ =~= a@.take(i as int));
    }
    let mut j: usize = 0;
    while j < b.len()
        invariant
            j <= b.len(),
            a@.len() == i,
            r@ == a@ + b@.take(j as int),
        decreases b.len() - j,
    {
        r.push(b[j]);
        j = j + 1;
        assert(r@ =~= a@ + b@.take(j as int));
    }
    assert(a@.take(i as int) =~= a@);
    assert(b@.take(j as int) =~= b@);
    r
}

/// `s` has the shape of the base64 of 32 bytes: 43 digits, then one `=`.
pub open spec fn is_base64_of_32(s: Seq<char>) -> bool {
    &&& s.len() == 44
    &&& forall|i: int| 0 <= i < 43 ==> is_base64_digit(#[trigger] s[i])
    &&& s[43] == '='
}

/// The base64 of 32 bytes has that shape.
pub proof fn lemma_base64_of_32(data: Seq<u8>)
    requires
        data.len() == 32,
    ensures
        is_base64_of_32(base64_standard(data)),
{
    lemma_base64_shape(data);
    let r = base64_standard(data);
    assert forall|i: int| 0 <= i < 43 implies is_base64_digit(#[trigger] r[i]) by {
        if i >= 40 {
            assert(i == 40 || i == 41 || i == 42);
        }
    }
}

/// The digest, in base64, of the UTF-8 bytes of `a` followed by those of `b`.
pub open spec fn hash_pair(a: Seq<char>, b: Seq<char>) -> Seq<char> {
    base64_standard(sha256(vstd::utf8::encode_utf8(a) + vstd::utf8::encode_utf8(b)))
}

/// The response that proves knowledge of `password`.
pub open spec fn auth_response(password: Seq<char>, salt: Seq<char>, challenge: Seq<char>) -> Seq<char> {
    hash_pair(hash_pair(password, salt), challenge)
}

/// `s` is the base64 encoding of `n` bytes.
pub open spec fn is_token(s: Seq<char>, n: nat) -> bool {
    exists|b: Seq<u8>| b.len() == n && s == base64_standard(b)
}

fn hash_pair_exec(a: &str, b: &str) -> (r: String)
    ensures
        r@ == hash_pair(a@, b@),
        is_base64_of_32(r@),
{
    let bytes = concat_bytes(a.as_bytes(), b.as_bytes());
    let digest = sha256_digest(bytes.as_slice());
    proof {
        lemma_base64_of_32(digest@);
    }
    base64_encode(digest.as_slice())
}

/// The authentication string for `password` under `salt` and `challenge`.
pub fn compute_auth_response(password: &str, salt: &str, challenge: &str) -> (r: String)
    ensures
        r@ == auth_response(password@, salt@, challenge@),
        is_base64_of_32(r@),
{
    let secret = hash_pair_exec(password, salt);
    hash_pair_exec(secret.as_str(), challenge)
}

/// The base64 encoding of `len` random bytes.
fn generate_random_string(len: usize) -> (r: String)
    requires
        len <= usize::MAX / 2,
    ensures
        is_token(r@, len as nat),
        r@.len() == 4 * ((len + 2) / 3),
        len == 32 ==> is_base64_of_32(r@),
{
    let bytes = random_bytes(len);
    proof {
        lemma_base64_shape(bytes@);
        if len == 32 {
            lemma_base64_of_32(bytes@);
        }
    }
    base64_encode(bytes.as_slice())
}

/// Whether `s` authenticates under `c`: always without a password, and
/// otherwise exactly when it is the expected response.
pub open spec fn accepts(c: AuthConfig, s: Seq<char>) -> bool {
    match c.password {
        None => true,
        Some(p) => s == auth_response(p@, c.salt@, c.challenge@),
    }
}

/// The password, if any, and the salt and challenge of one connection.
#[derive(Debug, PartialEq)]
pub struct AuthConfig {
    pub password: Option<String>,
    pub salt: String,
    pub challenge: String,
}

impl AuthConfig {
    /// A configuration with a fresh salt and challenge, each the base64
    /// encoding of 32 random bytes.
    pub fn new(password: Option<String>) -> (c: Self)
        ensures
            c.password == password,
            is_token(c.salt@, 32),
            is_token(c.challenge@, 32),
            is_base64_of_32(c.salt@),
            is_base64_of_32(c.challenge@),
    {
        let salt = generate_random_string(32);
        let challenge = generate_random_string(32);
        AuthConfig { password, salt, challenge }
    }

    /// Whether `auth_string` authenticates: always without a password, and
    /// otherwise exactly when it is the expected response.
    pub fn verify(&self, auth_string: &str) -> (r: bool)
        ensures
            r == accepts(*self, auth_string@),
    {
        let password = match &self.password {
            Some(p) => p,
            None => return true,
        };
        let expected = compute_auth_response(password.as_str(), self.salt.as_str(), self.challenge.as_str());
        str_eq(auth_string, expected.as_str())
    }

    /// Whether a password is set.
    pub fn requires_auth(&self) -> (r: bool)
        ensures
            r == self.password is Some,
    {
        self.password.is_some()
    }
}

} // verus!
