//! The transport encoding of byte fields: URL-safe base64 with padding, as the
//! `base64` crate's `URL_SAFE` engine writes and reads it.
//!
//! The engine's work is not verified here. Its two entry points stand behind
//! the two private functions at the end of this file, and what is believed of
//! them is written in their contracts.

use vstd::prelude::*;
use crate::error::{untraced, ClassifiedError, ErrorKindView};

verus! {

/// The text that the engine writes for `bytes`.
pub uninterp spec fn url_safe_text(bytes: Seq<u8>) -> Seq<char>;

/// The bytes that the engine reads from `text`, or `None` where it rejects
/// the text.
pub uninterp spec fn url_safe_bytes(text: Seq<char>) -> Option<Seq<u8>>;

/// Whether `c` is one of the 64 symbols of the URL-safe alphabet.
pub open spec fn is_symbol(c: char) -> bool {
    ||| 'A' <= c <= 'Z'
    ||| 'a' <= c <= 'z'
    ||| '0' <= c <= '9'
    ||| c == '-'
    ||| c == '_'
}

/// The shape of every text that the engine accepts: whole groups of four
/// characters, each a symbol of the alphabet, but that the last one or two
/// characters of the text may be the padding character `=` instead.
///
/// The shape is necessary, not sufficient: the engine also rejects a last
/// symbol whose unused low bits are set.
pub open spec fn is_padded_text(text: Seq<char>) -> bool {
    &&& text.len() % 4 == 0
    &&& forall|i: int|
        0 <= i < text.len() ==> is_symbol(#[trigger] text[i]) || (text[i] == '=' && i >= text.len()
            - 2)
    &&& text.len() >= 2 && text[text.len() - 2] == '=' ==> text[text.len() - 1] == '='
}

/// One character that is neither a symbol of the alphabet nor the padding
/// character spoils a text, wherever it stands. So does a padding character
/// before the last two places.
pub proof fn lemma_stray_character_spoils(text: Seq<char>, i: int)
    requires
        0 <= i < text.len(),
        !is_symbol(text[i]),
        text[i] != '=' || i < text.len() - 2,
    ensures
        !is_padded_text(text),
{
}

/// The length of the text that encodes `n` bytes: four characters for every
/// three bytes begun.
pub open spec fn encoded_len(n: nat) -> nat {
    4 * ((n + 2) / 3)
}

/// Encodes `bytes` as text.
///
/// The text decodes to `bytes` again: decoding is a left inverse of encoding.
pub fn encode(bytes: &[u8]) -> (text: String)
    ensures
        text@ == url_safe_text(bytes@),
        text@.len() == encoded_len(bytes@.len()),
        url_safe_bytes(text@) == Some(bytes@),
{
    engine_encode(bytes)
}

/// Decodes `text`, or fails with `MalformedInput` where it is not valid
/// encoded text. Text that holds a character outside the alphabet, or padding
/// anywhere but at its end, or that is not made of whole groups of four, is
/// never accepted.
pub fn decode(text: &str) -> (decoded: Result<Vec<u8>, ClassifiedError>)
    ensures
        match decoded {
            Ok(bytes) => url_safe_bytes(text@) == Some(bytes@),
            Err(error) => url_safe_bytes(text@) is None && error@ == untraced(
                ErrorKindView::MalformedInput,
            ),
        },
        !is_padded_text(text@) ==> decoded is Err,
{
    match engine_decode(text) {
        Ok(bytes) => Ok(bytes),
        Err(_) => Err(ClassifiedError::malformed_input()),
    }
}

/// The error of the `base64` crate's decoder. Nothing is read from it: every
/// one of its variants means that the text was rejected.
#[verifier::external_type_specification]
#[verifier::external_body]
pub struct ExDecodeError(base64::DecodeError);

/// `base64::Engine::encode` on the engine `URL_SAFE`.
///
/// Believed of it: the text is a function of the bytes alone; it has four
/// characters for every three bytes begun, since this engine pads; and the
/// same engine decodes it to the bytes it was made from.
///
/// No input is excluded. The crate computes the length of the text with
/// checked arithmetic and gives up where that overflows, which it cannot for
/// the length of a slice; after that the call fails only where the text
/// cannot be allocated.
#[verifier::external_body]
fn engine_encode(bytes: &[u8]) -> (text: String)
    ensures
        text@ == url_safe_text(bytes@),
        text@.len() == encoded_len(bytes@.len()),
        url_safe_bytes(text@) == Some(bytes@),
{
    base64::Engine::encode(&base64::engine::general_purpose::URL_SAFE, bytes)
}

/// `base64::Engine::decode` on the engine `URL_SAFE`.
///
/// Believed of it: whether it accepts, and what it returns, is a function of
/// the text alone; and it accepts no text outside the shape that
/// [`is_padded_text`] describes, since this engine demands canonical padding,
/// looks every byte up in the alphabet, and lets `=` stand only in the last
/// two places of the last group.
#[verifier::external_body]
fn engine_decode(text: &str) -> (decoded: Result<Vec<u8>, base64::DecodeError>)
    ensures
        match decoded {
            Ok(bytes) => url_safe_bytes(text@) == Some(bytes@),
            Err(_) => url_safe_bytes(text@) is None,
        },
        decoded is Ok ==> is_padded_text(text@),
{
    base64::Engine::decode(&base64::engine::general_purpose::URL_SAFE, text)
}

} // verus!
