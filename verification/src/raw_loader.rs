//! From the bytes of a save file to the markup document inside it.
//!
//! A save is a markup document that was compressed with gzip, written in
//! base64 and masked byte by byte with a fixed key. Some saves were never
//! packed that way and hold the document as it is.

use vstd::prelude::*;
use vstd::utf8::{decode_utf8, decode_utf8_encode_utf8, encode_utf8, valid_utf8};

verus! {

/// The key that every byte of a packed save is masked with.
pub const XOR_SAVE_KEY: u8 = 0x0B;

/// `std::string::FromUtf8Error`: what `String::from_utf8` reports of bytes
/// that are no text.
#[verifier::external_type_specification]
#[verifier::external_body]
pub struct ExFromUtf8Error(std::string::FromUtf8Error);

/// `base64::DecodeError`: what the base64 engine reports of a text that it
/// cannot decode.
#[verifier::external_type_specification]
#[verifier::external_body]
pub struct ExBase64DecodeError(base64::DecodeError);

/// `std::io::Error`: what reading from the gzip decoder reports.
#[verifier::external_type_specification]
#[verifier::external_body]
pub struct ExIoError(std::io::Error);

/// Why a save could not be decoded: the step that failed, with what it
/// reported.
#[derive(Debug)]
pub enum SaveDecodeError {
    /// The bytes, with the mask taken off, are not text.
    InvalidString(std::string::FromUtf8Error),
    /// The text is not base64.
    InvalidBase64(base64::DecodeError),
    /// The bytes are not a gzip stream, or what they unpack to is not text.
    InvalidGzip(std::io::Error),
}

/// The step at which decoding fails.
pub enum DecodeFailure {
    InvalidString,
    InvalidBase64,
    InvalidGzip,
}

impl View for SaveDecodeError {
    type V = DecodeFailure;

    open spec fn view(&self) -> DecodeFailure {
        match self {
            SaveDecodeError::InvalidString(_) => DecodeFailure::InvalidString,
            SaveDecodeError::InvalidBase64(_) => DecodeFailure::InvalidBase64,
            SaveDecodeError::InvalidGzip(_) => DecodeFailure::InvalidGzip,
        }
    }
}

impl SaveDecodeError {
    /// The failure in words.
    pub fn message(&self) -> (words: String)
        ensures
            words@ == match self@ {
                DecodeFailure::InvalidString => "Failed to decode string from utf8"@,
                DecodeFailure::InvalidBase64 => "Failed to decode base64"@,
                DecodeFailure::InvalidGzip => "Failed to read string from gzip"@,
            },
    {
        match self {
            SaveDecodeError::InvalidString(_) => "Failed to decode string from utf8".to_owned(),
            SaveDecodeError::InvalidBase64(_) => "Failed to decode base64".to_owned(),
            SaveDecodeError::InvalidGzip(_) => "Failed to read string from gzip".to_owned(),
        }
    }
}

/// `String::from_utf8` gives the text that the bytes encode, and fails
/// exactly where they are not valid UTF-8.
pub assume_specification[ std::string::String::from_utf8 ](vec: Vec<u8>) -> (outcome: Result<
    std::string::String,
    std::string::FromUtf8Error,
>)
    ensures
        match outcome {
            Ok(text) => valid_utf8(vec@) && text@ == decode_utf8(vec@),
            Err(_) => !valid_utf8(vec@),
        },
;

/// The bytes that a text in URL-safe base64 without padding stands for, or
/// `None` where the text is not such base64.
pub uninterp spec fn base64_url_decoded(text: Seq<char>) -> Option<Seq<u8>>;

/// `base64::Engine::decode` of the engine `URL_SAFE_NO_PAD`, whose outcome
/// depends on the text alone.
#[verifier::external_body]
fn base64_decode(text: &str) -> (outcome: Result<Vec<u8>, base64::DecodeError>)
    ensures
        match outcome {
            Ok(bytes) => base64_url_decoded(text@) == Some(bytes@),
            Err(_) => base64_url_decoded(text@) is None,
        },
{
    base64::Engine::decode(&base64::engine::general_purpose::URL_SAFE_NO_PAD, text.as_bytes())
}

/// The text that a gzip stream unpacks to, or `None` where the bytes are no
/// gzip stream or do not unpack to text.
pub uninterp spec fn gunzipped_text(packed: Seq<u8>) -> Option<Seq<char>>;

/// `flate2::bufread::GzDecoder` over the bytes, read to its end as a
/// string by `std::io::Read::read_to_string`. The outcome depends on the
/// bytes alone.
#[verifier::external_body]
fn gunzip_to_string(packed: &[u8]) -> (outcome: Result<String, std::io::Error>)
    ensures
        match outcome {
            Ok(text) => gunzipped_text(packed@) == Some(text@),
            Err(_) => gunzipped_text(packed@) is None,
        },
{
    let mut text = String::new();
    std::io::Read::read_to_string(&mut flate2::bufread::GzDecoder::new(packed), &mut text)?;
    Ok(text)
}

/// The bytes with the mask taken off, or put on: each byte combined with
/// the key by exclusive or.
pub open spec fn masked(bytes: Seq<u8>) -> Seq<u8> {
    Seq::new(bytes.len(), |i: int| bytes[i] ^ XOR_SAVE_KEY)
}

/// Whether a character is one of the two that saves pad their base64 with:
/// NUL and `=`.
pub open spec fn is_padding(c: char) -> bool {
    c == '\0' || c == '='
}

/// The text without its padding characters.
pub open spec fn without_padding(text: Seq<char>) -> Seq<char> {
    text.filter(|c: char| !is_padding(c))
}

/// What decoding a packed save gives: the document, or the first step that
/// fails. The steps are, in this order: take the mask off; read the bytes as
/// text; drop the padding; decode the base64; unpack the gzip stream as
/// text.
pub open spec fn decoded(bytes: Seq<u8>) -> Result<Seq<char>, DecodeFailure> {
    if !valid_utf8(masked(bytes)) {
        Err(DecodeFailure::InvalidString)
    } else {
        match base64_url_decoded(without_padding(decode_utf8(masked(bytes)))) {
            None => Err(DecodeFailure::InvalidBase64),
            Some(packed) => match gunzipped_text(packed) {
                None => Err(DecodeFailure::InvalidGzip),
                Some(document) => Ok(document),
            },
        }
    }
}

/// What loading a save gives: the bytes themselves where they are text,
/// and else what decoding them gives.
pub open spec fn loaded(bytes: Seq<u8>) -> Result<Seq<char>, DecodeFailure> {
    if valid_utf8(bytes) {
        Ok(decode_utf8(bytes))
    } else {
        decoded(bytes)
    }
}

/// Whether an outcome is the one that the model gives.
pub open spec fn agrees(
    outcome: Result<String, SaveDecodeError>,
    model: Result<Seq<char>, DecodeFailure>,
) -> bool {
    match outcome {
        Ok(document) => model == Ok::<Seq<char>, DecodeFailure>(document@),
        Err(error) => model == Err::<Seq<char>, DecodeFailure>(error@),
    }
}

/// Takes the mask off every byte.
fn unmask(bytes: &Vec<u8>) -> (plain: Vec<u8>)
    ensures
        plain@ == masked(bytes@),
{
    let mut plain: Vec<u8> = Vec::new();
    let mut i: usize = 0;
    while i < bytes.len()
        invariant
            i <= bytes.len(),
            plain@ == masked(bytes@.take(i as int)),
        decreases bytes.len() - i,
    {
        plain.push(bytes[i] ^ XOR_SAVE_KEY);
        i += 1;
    }
    plain
}

/// Drops every NUL and every `=` from a text.
fn strip_padding(text: &str) -> (cleaned: String)
    ensures
        cleaned@ == without_padding(text@),
{
    let mut cleaned = String::new();
    for c in it: text.chars()
        invariant
            it.seq() == text@,
            cleaned@ == without_padding(it.seq().take(it.index() as int)),
    {
        proof {
            reveal(Seq::filter);
            assert(it.seq().take(it.index() + 1).drop_last() =~= it.seq().take(it.index() as int));
        }
        if c != '\0' && c != '=' {
            cleaned.push(c);
        }
    }
    assert(text@.take(text@.len() as int) =~= text@);
    cleaned
}

/// Decodes a packed save: takes off the mask, drops the padding, decodes
/// the base64 and unpacks the gzip stream. Returns the markup document, or
/// the first step that failed.
pub fn decode_save_bytes(bytes: Vec<u8>) -> (outcome: Result<String, SaveDecodeError>)
    ensures
        agrees(outcome, decoded(bytes@)),
{
    let xored_bytes = unmask(&bytes);
    let base64_string = match String::from_utf8(xored_bytes) {
        Ok(text) => strip_padding(text.as_str()),
        Err(error) => {
            return Err(SaveDecodeError::InvalidString(error));
        },
    };
    let decoded_bytes = match base64_decode(base64_string.as_str()) {
        Ok(bytes) => bytes,
        Err(error) => {
            return Err(SaveDecodeError::InvalidBase64(error));
        },
    };
    match gunzip_to_string(decoded_bytes.as_slice()) {
        Ok(document) => Ok(document),
        Err(error) => Err(SaveDecodeError::InvalidGzip(error)),
    }
}

/// Loads a save, packed or not. Bytes that are text already are the
/// document, and are returned as they are; all others are decoded.
pub fn load_save_str(save_data: Vec<u8>) -> (outcome: Result<String, SaveDecodeError>)
    ensures
        agrees(outcome, loaded(save_data@)),
        valid_utf8(save_data@) ==> outcome is Ok && encode_utf8(outcome->Ok_0@) == save_data@,
{
    if let Ok(save_as_string) = String::from_utf8(save_data.clone()) {
        proof {
            decode_utf8_encode_utf8(save_data@);
        }
        return Ok(save_as_string);
    }
    decode_save_bytes(save_data)
}

} // verus!
