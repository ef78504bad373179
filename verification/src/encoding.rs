//! What comes from outside crates: hashing, encodings, random bytes, URLs and HTTP's own rules.
use crate::text;
use base64::engine::general_purpose::URL_SAFE_NO_PAD;
use base64::Engine as _;
use rand::RngCore as _;
use sha2::Digest as _;
use vstd::prelude::*;

verus! {

/// The SHA-256 digest of some bytes.
pub uninterp spec fn sha256(bytes: Seq<u8>) -> Seq<u8>;

/// The URL-safe base64 text of some bytes, without padding.
pub uninterp spec fn base64url(bytes: Seq<u8>) -> Seq<char>;

/// The bytes that a URL-safe base64 text without padding stands for, if it is one.
pub uninterp spec fn base64url_decoded(content: Seq<char>) -> Option<Seq<u8>>;

/// Names and values in the syntax `application/x-www-form-urlencoded`.
pub uninterp spec fn form_urlencoded(pairs: Seq<(Seq<char>, Seq<char>)>) -> Seq<char>;

/// The words that HTTP has for a status code.
pub uninterp spec fn status_reason(code: u16) -> Seq<char>;

/// `sha2::Sha256::digest`: the digest depends on the bytes alone and is 32 bytes long.
#[verifier::external_body]
pub(crate) fn sha256_of(bytes: &[u8]) -> (digest: Vec<u8>)
    ensures
        digest@ == sha256(bytes@),
        digest@.len() == 32,
{
    sha2::Sha256::digest(bytes).to_vec()
}

/// `base64::Engine::encode` of the engine `URL_SAFE_NO_PAD`: the text depends on the bytes alone.
#[verifier::external_body]
pub(crate) fn base64url_of(bytes: &[u8]) -> (encoded: String)
    requires
        bytes@.len() <= 0x3fff_ffff,
    ensures
        encoded@ == base64url(bytes@),
{
    URL_SAFE_NO_PAD.encode(bytes)
}

/// `base64::Engine::decode` of the engine `URL_SAFE_NO_PAD`: the bytes, or that the text is no
/// such encoding, depend on the text alone.
#[verifier::external_body]
pub(crate) fn base64url_bytes(content: &str) -> (r: Option<Vec<u8>>)
    ensures
        match r {
            Some(bytes) => base64url_decoded(content@) == Some(bytes@),
            None => base64url_decoded(content@) is None,
        },
{
    URL_SAFE_NO_PAD.decode(content).ok()
}

/// `rand::RngCore::fill_bytes` of `rand::rng`: as many bytes as asked for.
///
/// Which bytes they are is left to chance.
#[verifier::external_body]
pub(crate) fn random_bytes(count: usize) -> (bytes: Vec<u8>)
    ensures
        bytes@.len() == count,
{
    let mut bytes = vec![0u8; count];
    rand::rng().fill_bytes(&mut bytes);
    bytes
}

/// `url::form_urlencoded::Serializer::extend_pairs` on an empty text, then `finish`: the text
/// depends on the pairs and their order alone.
#[verifier::external_body]
pub(crate) fn form_urlencoded_of(pairs: &Vec<(&str, &str)>) -> (encoded: String)
    ensures
        encoded@ == form_urlencoded(pairs.deep_view()),
{
    url::form_urlencoded::Serializer::new(String::new()).extend_pairs(pairs).finish()
}

/// The page on which a user grants access to an account.
pub const OPENAI_AUTHORIZE_URL: &'static str = "https://auth.openai.com/oauth/authorize";

/// `url::Url::parse`, then `query_pairs_mut` and `extend_pairs`, for an address that is written as
/// `url::Url` writes it and has neither query nor fragment: a question mark and the pairs follow
/// the address.
#[verifier::external_body]
pub(crate) fn url_with_query(address: &str, pairs: &Vec<(&str, &str)>) -> (r: String)
    requires
        address@ == OPENAI_AUTHORIZE_URL@,
    ensures
        r@ == address@ + "?"@ + form_urlencoded(pairs.deep_view()),
{
    let mut url = url::Url::parse(address).expect("valid base URL");
    url.query_pairs_mut().extend_pairs(pairs);
    url.into()
}

/// The text can be the value of an HTTP header: it holds no control character of ASCII but the
/// tab.
pub open spec fn header_value_allowed(content: Seq<char>) -> bool {
    forall|i: int|
        0 <= i < content.len() ==> #[trigger] content[i] == '\t' || (' ' <= content[i] && content[i]
            != '\u{7f}')
}

/// `http::HeaderValue::from_str` takes a text if none of its bytes is a control character other
/// than the tab; all bytes of a character beyond ASCII are taken.
#[verifier::external_body]
pub(crate) fn is_header_value(content: &str) -> (r: bool)
    ensures
        r == header_value_allowed(content@),
{
    http::HeaderValue::from_str(content).is_ok()
}

/// A status code as it is shown: the number, a space and HTTP's words for it.
pub open spec fn status_text(code: u16) -> Seq<char> {
    text::decimal(code as nat) + " "@ + status_reason(code)
}

/// The `Display` of `http::StatusCode`, for the codes that `http::StatusCode::from_u16` takes:
/// the number in decimal, a space, and words that depend on the number alone.
#[verifier::external_body]
pub(crate) fn status_text_of(code: u16) -> (r: String)
    requires
        100 <= code <= 999,
    ensures
        r@ == text::decimal(code as nat) + " "@ + status_reason(code),
{
    http::StatusCode::from_u16(code).expect("valid status code").to_string()
}

} // verus!
