//! HTTP Basic authentication: the header value that stands for a pair of
//! identifier and token.

use base64::Engine;
use vstd::prelude::*;
use vstd::utf8::encode_utf8;
use vstd::utf8::is_ascii_chars_encode_utf8;

use crate::error::Error;
use crate::error::ErrorView;

verus! {

/// The base64 text of a sequence of bytes, in the standard alphabet and with
/// padding: what `base64`'s `STANDARD` engine returns from `encode`.
pub uninterp spec fn base64_standard(bytes: Seq<u8>) -> Seq<char>;

/// The characters that standard base64 text is made of.
pub open spec fn is_base64_char(c: char) -> bool {
    ('A' <= c <= 'Z') || ('a' <= c <= 'z') || ('0' <= c <= '9') || c == '+' || c == '/' || c
        == '='
}

/// The bytes that an HTTP header value may hold: tab, and everything from
/// space upwards but DEL.
pub open spec fn is_header_byte(b: u8) -> bool {
    (b >= 32 && b != 127) || b == 9
}

/// Whether a text is legal as an HTTP header value: each byte of its UTF-8
/// form is a header byte.
pub open spec fn is_header_text(text: Seq<char>) -> bool {
    forall|i: int| 0 <= i < encode_utf8(text).len() ==> is_header_byte(#[trigger] encode_utf8(text)[i])
}

/// What is encoded: identifier and token with a colon between them.
pub open spec fn credential_pair(identifier: Seq<char>, token: Seq<char>) -> Seq<char> {
    identifier + seq![':'] + token
}

/// The `Authorization` header value for a pair of credentials: the word
/// `Basic`, a space, and the base64 text of the UTF-8 bytes of the pair.
pub open spec fn basic_header(identifier: Seq<char>, token: Seq<char>) -> Seq<char> {
    "Basic "@ + base64_standard(encode_utf8(credential_pair(identifier, token)))
}

/// Calls `encode` of `base64`'s `STANDARD` engine. Trusted: the result is the
/// standard base64 text of the input, and that text holds nothing but letters,
/// digits, `+`, `/` and the padding `=`. The encoder gives up only on an input
/// longer than three quarters of the address space, which no slice is.
#[verifier::external_body]
fn base64_encode(input: &[u8]) -> (r: String)
    ensures
        r@ == base64_standard(input@),
        forall|i: int| 0 <= i < r@.len() ==> is_base64_char(#[trigger] r@[i]),
{
    base64::engine::general_purpose::STANDARD.encode(input)
}

/// Calls `HeaderValue::from_str` and, where it refuses, renders its error.
/// Trusted: the text is accepted exactly when every byte of it is a header
/// byte, and the error always reads the same.
#[verifier::external_body]
fn header_value_error(text: &str) -> (r: Option<String>)
    ensures
        r is None <==> is_header_text(text@),
        r matches Some(message) ==> message@ == "failed to parse header value"@,
{
    match reqwest::header::HeaderValue::from_str(text) {
        Ok(_) => None,
        Err(e) => Some(e.to_string()),
    }
}

/// Text made of base64 characters behind the word `Basic` is a legal header
/// value.
pub proof fn lemma_basic_text_is_header_text(encoded: Seq<char>)
    requires
        forall|i: int| 0 <= i < encoded.len() ==> is_base64_char(#[trigger] encoded[i]),
    ensures
        is_header_text("Basic "@ + encoded),
{
    reveal_strlit("Basic ");
    let text = "Basic "@ + encoded;
    assert forall|i: int| 0 <= i < text.len() implies '\0' <= #[trigger] text[i] <= '\u{7f}' by {
        if i >= 6 {
            assert(text[i] == encoded[i - 6]);
            assert(is_base64_char(encoded[i - 6]));
        }
    }
    is_ascii_chars_encode_utf8(text);
    let bytes = encode_utf8(text);
    assert forall|i: int| 0 <= i < bytes.len() implies is_header_byte(#[trigger] bytes[i]) by {
        assert(bytes[i] == text[i] as u8);
        if i >= 6 {
            assert(text[i] == encoded[i - 6]);
            assert(is_base64_char(encoded[i - 6]));
        }
    }
}

/// Makes the `Authorization` header value from the base64 text of a pair of
/// credentials: the word `Basic`, a space and the text.
///
/// The value is refused, with `InvalidCredentials`, exactly when it is not a
/// legal header value.
pub fn basic_header_value(encoded: &str) -> (r: Result<String, Error>)
    ensures
        r is Ok <==> is_header_text("Basic "@ + encoded@),
        r matches Ok(header) ==> header@ == "Basic "@ + encoded@,
        r matches Err(e) ==> e@ == ErrorView::InvalidCredentials(
            "Invalid auth header: failed to parse header value"@,
        ),
{
    let mut header = "Basic ".to_owned();
    header.append(encoded);
    match header_value_error(header.as_str()) {
        None => Ok(header),
        Some(cause) => {
            let mut message = "Invalid auth header: ".to_owned();
            message.append(cause.as_str());
            proof {
                reveal_strlit("Invalid auth header: ");
                reveal_strlit("failed to parse header value");
                reveal_strlit("Invalid auth header: failed to parse header value");
                assert(message@ =~= "Invalid auth header: failed to parse header value"@);
            }
            Err(Error::InvalidCredentials(message))
        },
    }
}

/// Computes the `Authorization` header value for a pair of credentials. The
/// pair is not examined: whatever it holds is encoded.
///
/// Base64 text is always a legal header value, so this never fails.
pub fn basic_authorization(identifier: &str, token: &str) -> (r: Result<String, Error>)
    ensures
        r matches Ok(header) && header@ == basic_header(identifier@, token@),
        is_header_text(basic_header(identifier@, token@)),
{
    let mut pair = identifier.to_owned();
    pair.append(":");
    pair.append(token);
    proof {
        reveal_strlit(":");
        assert(pair@ =~= credential_pair(identifier@, token@));
    }
    let encoded = base64_encode(pair.as_str().as_bytes());
    proof {
        lemma_basic_text_is_header_text(encoded@);
    }
    basic_header_value(encoded.as_str())
}

} // verus!
