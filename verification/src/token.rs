//! Access tokens: bearer strings made of random bytes in URL-safe base64.

use base64::Engine;
use rand::TryRngCore;
use vstd::prelude::*;

verus! {

/// How many random bytes an access token is made of.
pub const ACCESS_TOKEN_ENTROPY_BYTES: usize = 187;

/// The least number of random bytes that a token may be made of: 128 bits.
pub const MIN_ENTROPY_BYTES: usize = 16;

/// What `BASE64_URL_SAFE_NO_PAD.encode` of the crate base64 returns for
/// `bytes`: their base64 text in the URL-safe alphabet, without padding.
pub uninterp spec fn base64_url_safe(bytes: Seq<u8>) -> Seq<char>;

/// A character of the URL-safe base64 alphabet.
pub open spec fn is_url_safe_char(c: char) -> bool {
    ||| 'A' <= c <= 'Z'
    ||| 'a' <= c <= 'z'
    ||| '0' <= c <= '9'
    ||| c == '-'
    ||| c == '_'
}

/// How many characters the unpadded base64 text of `n` bytes has: four for
/// every three bytes, and two or three for the one or two bytes that are
/// left.
pub open spec fn encoded_len(n: nat) -> nat {
    if n % 3 == 0 {
        4 * (n / 3)
    } else {
        4 * (n / 3) + n % 3 + 1
    }
}

/// The text is in the shape of an unpadded URL-safe base64 encoding of `n`
/// bytes: of the right length, and of characters of the URL-safe alphabet
/// alone.
pub open spec fn is_token_text(text: Seq<char>, n: nat) -> bool {
    &&& text.len() == encoded_len(n)
    &&& forall|i: int| 0 <= i < text.len() ==> is_url_safe_char(#[trigger] text[i])
}

/// Whether `token` is the token made of the random bytes `entropy`: their
/// text, in the shape of an encoding of that many bytes, and the text of no
/// other bytes.
pub open spec fn is_token_of(token: Seq<char>, entropy: Seq<u8>) -> bool {
    &&& token == base64_url_safe(entropy)
    &&& is_token_text(token, entropy.len())
    &&& forall|other: Seq<u8>| #[trigger] base64_url_safe(other) == token ==> other == entropy
}

/// Whether the text that encodes `n` bytes fits into memory: a text has at
/// most `isize::MAX` bytes, which is no less than `usize::MAX / 2`.
pub open spec fn encoding_fits(n: nat) -> bool {
    n / 3 < usize::MAX / 8
}

/// `BASE64_URL_SAFE_NO_PAD.encode` from the crate base64. The result is named
/// `base64_url_safe`; of it the contract states the length that the crate
/// computes for output without padding, that every character comes from the
/// URL-safe alphabet, and that no other bytes have the same text, as the
/// text can be decoded. The crate panics where the encoded length does not
/// fit a `usize`, and the allocation of the text fails where it does not fit
/// an `isize`; the bound on the input excludes both.
#[verifier::external_body]
pub(crate) fn encode_url_safe(bytes: &[u8]) -> (text: String)
    requires
        encoding_fits(bytes@.len()),
    ensures
        text@ == base64_url_safe(bytes@),
        is_token_text(text@, bytes@.len()),
        forall|other: Seq<u8>| #[trigger] base64_url_safe(other) == text@ ==> other == bytes@,
{
    base64::prelude::BASE64_URL_SAFE_NO_PAD.encode(bytes)
}

/// `OsRng.try_fill_bytes` from the crate rand, on a fresh buffer of `n`
/// bytes: the operating system's random bytes, or nothing where the source
/// fails. Nothing is claimed of the bytes but their number.
#[verifier::external_body]
pub(crate) fn os_random_bytes(n: usize) -> (r: Option<Vec<u8>>)
    ensures
        r is Some ==> r->0@.len() == n,
{
    let mut buf = vec![0u8; n];
    match rand::rngs::OsRng.try_fill_bytes(&mut buf) {
        Ok(()) => Some(buf),
        Err(_) => None,
    }
}

/// Whether random bytes of this number may become a token: at least the
/// entropy floor, and no more than a text can encode.
pub open spec fn entropy_suffices(n: nat) -> bool {
    MIN_ENTROPY_BYTES <= n && encoding_fits(n)
}

/// The token made of the given random bytes, or nothing where they are
/// fewer than the entropy floor asks, or more than a text can encode.
pub open spec fn token_of(entropy: Seq<u8>) -> Option<Seq<char>> {
    if entropy_suffices(entropy.len()) {
        Some(base64_url_safe(entropy))
    } else {
        None
    }
}

/// Encodes random bytes as an access token. Bytes that fall short of the
/// entropy floor of 128 bits are refused. No other bytes give the same
/// token.
pub fn encode_access_token(entropy: &[u8]) -> (r: Option<String>)
    ensures
        r is Some <==> token_of(entropy@) is Some,
        r is Some ==> r->0@ == token_of(entropy@)->0 && is_token_of(r->0@, entropy@),
{
    if entropy.len() < MIN_ENTROPY_BYTES || entropy.len() / 3 >= usize::MAX / 8 {
        return None;
    }
    Some(encode_url_safe(entropy))
}

/// Draws the random bytes of one access token from the operating system.
pub fn draw_entropy() -> (r: Option<Vec<u8>>)
    ensures
        r is Some ==> r->0@.len() == ACCESS_TOKEN_ENTROPY_BYTES,
{
    os_random_bytes(ACCESS_TOKEN_ENTROPY_BYTES)
}

/// Generates an access token from fresh random bytes: there is a token
/// exactly where the random source gave bytes, and it is their encoding.
pub fn generate_access_token() -> (r: Option<String>)
    ensures
        exists|drawn: Option<Seq<u8>>| generated_from(drawn, r),
{
    match draw_entropy() {
        Some(bytes) => {
            let token = encode_access_token(bytes.as_slice());
            assert(generated_from(Some(bytes@), token));
            token
        },
        None => {
            assert(generated_from(None, None));
            None
        },
    }
}

/// Whether `token` is what generating makes of what the random source gave:
/// no token where the source gave nothing; where it gave bytes, as many as a
/// token is made of, and the token is their encoding.
pub open spec fn generated_from(drawn: Option<Seq<u8>>, token: Option<String>) -> bool {
    match drawn {
        None => token is None,
        Some(entropy) => {
            &&& entropy.len() == ACCESS_TOKEN_ENTROPY_BYTES
            &&& token is Some
            &&& is_token_of(token->0@, entropy)
        },
    }
}

} // verus!
