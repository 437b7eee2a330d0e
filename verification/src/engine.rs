//! Encoding and decoding under one scheme.
//!
//! The work is done by the general-purpose engines of the `base64` crate.
//! What they return is not proved here: the two functions that call them say
//! what is taken on trust, in the terms of [`crate::encoding`].

use vstd::prelude::*;
use base64::prelude::{BASE64_STANDARD, BASE64_STANDARD_NO_PAD, BASE64_URL_SAFE, BASE64_URL_SAFE_NO_PAD};
use base64::{DecodeError, Engine};
use crate::encoding::{as_chars, decoded, encoded, encoded_len, lemma_encoded_injective, lemma_encoded_shape};
use crate::scheme::Scheme;

verus! {

/// `base64::DecodeError`, the engines' reason for refusing a text. Nothing
/// is read from it.
#[verifier::external_type_specification]
#[verifier::external_body]
pub struct ExDecodeError(base64::DecodeError);

/// Calls `Engine::encode` on the engine that `base64` keeps for the scheme
/// (`STANDARD`, `STANDARD_NO_PAD`, `URL_SAFE`, `URL_SAFE_NO_PAD`).
///
/// Trusted, of `base64`: the engine writes one symbol of its alphabet for
/// every six bits of the data, most significant bits first and the last
/// group filled with zero bits, and an engine that pads then adds `=` up to
/// a multiple of four. That is the text `encoded` defines, and the string
/// returned holds it character for character. The call panics where the
/// length of the text does not fit in a `usize`, which the precondition
/// rules out.
#[verifier::external_body]
fn engine_encode(scheme: Scheme, data: &[u8]) -> (text: String)
    requires
        encoded_len(scheme.padding(), data@.len()) <= usize::MAX,
    ensures
        text@ == as_chars(encoded(scheme, data@)),
{
    match scheme {
        Scheme::Standard => BASE64_STANDARD.encode(data),
        Scheme::StandardNoPad => BASE64_STANDARD_NO_PAD.encode(data),
        Scheme::UrlSafe => BASE64_URL_SAFE.encode(data),
        Scheme::UrlSafeNoPad => BASE64_URL_SAFE_NO_PAD.encode(data),
    }
}

/// Calls `Engine::decode` on the engine that `base64` keeps for the scheme.
///
/// Trusted, of `base64`: these four engines refuse set bits that no byte
/// takes up, and ask for canonical padding (the padded ones) or for none at
/// all (the unpadded ones). So a text is accepted only if it is, byte for
/// byte, what encoding some bytes under the scheme gives, and those bytes
/// are returned; every such text is accepted.
#[verifier::external_body]
fn engine_decode(scheme: Scheme, text: &[u8]) -> (outcome: Result<Vec<u8>, DecodeError>)
    ensures
        match outcome {
            Ok(data) => encoded(scheme, data@) == text@,
            Err(_) => forall|data: Seq<u8>| encoded(scheme, data) != text@,
        },
{
    match scheme {
        Scheme::Standard => BASE64_STANDARD.decode(text),
        Scheme::StandardNoPad => BASE64_STANDARD_NO_PAD.decode(text),
        Scheme::UrlSafe => BASE64_URL_SAFE.decode(text),
        Scheme::UrlSafeNoPad => BASE64_URL_SAFE_NO_PAD.decode(text),
    }
}

impl Scheme {
    /// Writes `data` as text. Never fails; the precondition only asks that
    /// the text's length can be held in a `usize`.
    pub fn encode(self, data: &[u8]) -> (text: String)
        requires
            encoded_len(self.padding(), data@.len()) <= usize::MAX,
        ensures
            text@ == as_chars(encoded(self, data@)),
            text@.len() == encoded_len(self.padding(), data@.len()),
    {
        proof {
            lemma_encoded_shape(self, data@);
        }
        engine_encode(self, data)
    }

    /// Reads `text` back into bytes, or `None` where it is no text of this
    /// scheme.
    pub fn decode(self, text: &[u8]) -> (data: Option<Vec<u8>>)
        ensures
            match data {
                Some(bytes) => decoded(self, text@) == Some(bytes@),
                None => decoded(self, text@) is None,
            },
    {
        match engine_decode(self, text) {
            Ok(bytes) => {
                proof {
                    let found = decoded(self, text@).unwrap();
                    lemma_encoded_injective(self, found, self, bytes@);
                }
                Some(bytes)
            },
            Err(_) => None,
        }
    }
}

} // verus!
