//! Request signatures: the HMAC-SHA256 of a request's time, method, path and
//! body under the account's secret key, in base64.
use base64::Engine;
use vstd::prelude::*;
use vstd::string::StringExecFns;
use vstd::utf8::encode_utf8;

verus! {

/// The HMAC-SHA256 tag of `data` under `key`.
pub uninterp spec fn hmac_sha256(key: Seq<u8>, data: Seq<u8>) -> Seq<u8>;

/// The base64 text of `bytes`, in the standard alphabet with padding.
pub uninterp spec fn base64_standard(bytes: Seq<u8>) -> Seq<char>;

/// The longest key or message, in bytes, that is signed.
pub const SIGN_LIMIT: u64 = 0x1000_0000_0000_0000;

/// The number of bytes that a text takes.
pub open spec fn byte_len(s: Seq<char>) -> nat {
    encode_utf8(s).len()
}

/// The bytes of two texts written one after the other are the bytes of the
/// first followed by the bytes of the second.
pub proof fn lemma_bytes_of_concat(a: Seq<char>, b: Seq<char>)
    ensures
        encode_utf8(a + b) == encode_utf8(a) + encode_utf8(b),
    decreases a.len(),
{
    if a.len() == 0 {
    } else {
        assert((a + b).drop_first() =~= a.drop_first() + b);
        lemma_bytes_of_concat(a.drop_first(), b);
    }
}

/// What is signed takes as many bytes as its four parts together.
pub proof fn lemma_sign_message_len(
    ts: Seq<char>,
    method: Seq<char>,
    path: Seq<char>,
    body: Seq<char>,
)
    ensures
        byte_len(sign_message(ts, method, path, body)) == byte_len(ts) + byte_len(method)
            + byte_len(path) + byte_len(body),
{
    lemma_bytes_of_concat(ts, method);
    lemma_bytes_of_concat(ts + method, path);
    lemma_bytes_of_concat(ts + method + path, body);
}

/// What is signed: time, method, path and body, one after the other.
pub open spec fn sign_message(
    ts: Seq<char>,
    method: Seq<char>,
    path: Seq<char>,
    body: Seq<char>,
) -> Seq<char> {
    ts + method + path + body
}

/// The signature of a request under the secret key `secret`.
pub open spec fn signature(
    ts: Seq<char>,
    method: Seq<char>,
    path: Seq<char>,
    body: Seq<char>,
    secret: Seq<char>,
) -> Seq<char> {
    base64_standard(
        hmac_sha256(encode_utf8(secret), encode_utf8(sign_message(ts, method, path, body))),
    )
}

/// Why a request was not signed.
#[derive(Debug, Copy, Clone, PartialEq, Eq, Structural)]
pub enum SignError {
    /// No secret key was configured.
    EmptySecret,
}

/// Computes an HMAC-SHA256 tag with ring's `hmac::Key::new` and
/// `hmac::sign`. The tag is a function of key and data alone and has the 32
/// bytes of a SHA-256 digest. Ring gives up on inputs of 2^61 bytes or more,
/// which are left out.
#[verifier::external_body]
fn ring_hmac_sha256(key: &[u8], data: &[u8]) -> (tag: Vec<u8>)
    requires
        key@.len() < SIGN_LIMIT,
        data@.len() < SIGN_LIMIT,
    ensures
        tag@ == hmac_sha256(key@, data@),
        tag@.len() == 32,
{
    let key = ring::hmac::Key::new(ring::hmac::HMAC_SHA256, key);
    ring::hmac::sign(&key, data).as_ref().to_vec()
}

/// Encodes bytes with `encode` of the base64 crate's
/// `general_purpose::STANDARD` engine. The text is a function of the bytes
/// alone. The crate gives up where the length of the text overflows, which
/// short inputs cannot cause.
#[verifier::external_body]
fn base64_encode(bytes: &[u8]) -> (r: String)
    requires
        bytes@.len() <= 0x1000_0000,
    ensures
        r@ == base64_standard(bytes@),
{
    base64::engine::general_purpose::STANDARD.encode(bytes)
}

/// The base64 text of a tag.
pub fn encode_tag(tag: &Vec<u8>) -> (r: String)
    requires
        tag@.len() <= 0x1000_0000,
    ensures
        r@ == base64_standard(tag@),
{
    base64_encode(tag.as_slice())
}

/// Signs a request: the base64 text of the HMAC-SHA256 tag, under
/// `secretkey`, of time, method, path and body written one after the other.
/// With an empty secret key nothing is signed.
pub fn get_sign(ts: &str, method: &str, path: &str, body: &str, secretkey: &str) -> (r: Result<
    String,
    SignError,
>)
    requires
        byte_len(secretkey@) < SIGN_LIMIT,
        byte_len(ts@) + byte_len(method@) + byte_len(path@) + byte_len(body@) < SIGN_LIMIT,
    ensures
        match r {
            Ok(sign) => secretkey@.len() > 0 && sign@ == signature(
                ts@,
                method@,
                path@,
                body@,
                secretkey@,
            ),
            Err(e) => secretkey@.len() == 0 && e == SignError::EmptySecret,
        },
{
    if secretkey.is_empty() {
        return Err(SignError::EmptySecret);
    }
    let mut message = String::from_str(ts);
    message.append(method);
    message.append(path);
    message.append(body);
    proof {
        lemma_sign_message_len(ts@, method@, path@, body@);
    }
    let tag = ring_hmac_sha256(secretkey.as_bytes(), message.as_str().as_bytes());
    Ok(encode_tag(&tag))
}

} // verus!
