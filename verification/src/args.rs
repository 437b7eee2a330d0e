//! One run of the tool: what was asked for, and the bytes that answer it.

use vstd::prelude::*;
use vstd::slice::slice_to_vec;
use vstd::string::StringSliceAdditionalSpecFns;
use crate::encoding::{as_chars, encoded, encoded_len, lemma_encoded_shape, PAD};
use crate::scheme::{Alphabet, Scheme};
use crate::trim::{is_ascii_whitespace, lemma_trimmed_push, lemma_trimmed_unchanged, trim_ascii_end, trimmed};
use crate::variants::{lemma_round_trip, try_decode, try_decoded};

verus! {

/// The line feed that ends the text of an encoding run.
pub const LINE_FEED: u8 = 0x0A;

/// Why a run ends without output.
#[derive(Clone, Copy, Debug, PartialEq, Eq, Structural)]
pub enum Failure {
    /// None of the four schemes accepts the input as its text.
    NoVariantMatched,
}

impl Failure {
    /// The message that reports this failure.
    pub fn message(&self) -> (text: String)
        ensures
            text@ == "Base64 decoding failed for each supported variant (standard/URL-safe; with or without padding)"@,
    {
        "Base64 decoding failed for each supported variant (standard/URL-safe; with or without padding)".to_owned()
    }
}

/// What a run is asked to do.
#[derive(Clone, Copy, Debug, PartialEq, Eq, Structural)]
pub struct Arguments {
    /// Decode the input; otherwise encode it.
    pub decode: bool,
    /// The alphabet to encode with. Decoding does not look at it.
    pub alphabet: Alphabet,
    /// Whether to pad the encoded text. Decoding does not look at it.
    pub padding: bool,
}

impl Default for Arguments {
    /// Encode, with the URL-safe alphabet and without padding.
    fn default() -> (arguments: Arguments)
        ensures
            arguments == (Arguments { decode: false, alphabet: Alphabet::UrlSafe, padding: false }),
    {
        Arguments { decode: false, alphabet: Alphabet::UrlSafe, padding: false }
    }
}

impl Arguments {
    /// The scheme that an encoding run uses.
    pub open spec fn scheme(self) -> Scheme {
        match (self.alphabet, self.padding) {
            (Alphabet::Standard, true) => Scheme::Standard,
            (Alphabet::Standard, false) => Scheme::StandardNoPad,
            (Alphabet::UrlSafe, true) => Scheme::UrlSafe,
            (Alphabet::UrlSafe, false) => Scheme::UrlSafeNoPad,
        }
    }

    /// The bytes that the run writes for `input`, or why it writes none.
    ///
    /// Encoding takes the input as it is and ends the text with a line feed.
    /// Decoding first takes the ASCII whitespace off the end of the input,
    /// tries every scheme, and writes the bytes with nothing added.
    pub open spec fn output(self, input: Seq<u8>) -> Result<Seq<u8>, Failure> {
        if self.decode {
            match try_decoded(trimmed(input)) {
                Some(data) => Ok(data),
                None => Err(Failure::NoVariantMatched),
            }
        } else {
            Ok(encoded(self.scheme(), input).push(LINE_FEED))
        }
    }

    /// The scheme that an encoding run uses: the one with the chosen
    /// alphabet and padding rule.
    pub fn engine(&self) -> (scheme: Scheme)
        ensures
            scheme == self.scheme(),
            scheme.alphabet() == self.alphabet,
            scheme.padding() == self.padding,
    {
        Scheme::select(self.alphabet, self.padding)
    }

    /// Computes what the run writes for `input`. The precondition only asks
    /// that the length of an encoded text can be held in a `usize`.
    pub fn run(&self, input: &[u8]) -> (written: Result<Vec<u8>, Failure>)
        requires
            !self.decode ==> encoded_len(self.padding, input@.len()) <= usize::MAX,
        ensures
            match written {
                Ok(bytes) => self.output(input@) == Ok::<Seq<u8>, Failure>(bytes@),
                Err(failure) => self.output(input@) == Err::<Seq<u8>, Failure>(failure),
            },
    {
        if self.decode {
            match try_decode(trim_ascii_end(input)) {
                Some(data) => Ok(data),
                None => Err(Failure::NoVariantMatched),
            }
        } else {
            let scheme = self.engine();
            let text = scheme.encode(input);
            proof {
                lemma_text_bytes(scheme, input@, text@);
            }
            let mut bytes = slice_to_vec(text.as_str().as_bytes());
            bytes.push(LINE_FEED);
            Ok(bytes)
        }
    }
}

/// A string that holds an encoded text holds it byte for byte.
proof fn lemma_text_bytes(scheme: Scheme, data: Seq<u8>, text: Seq<char>)
    requires
        text == as_chars(encoded(scheme, data)),
    ensures
        vstd::utf8::encode_utf8(text) == encoded(scheme, data),
{
    let bytes = encoded(scheme, data);
    lemma_encoded_shape(scheme, data);
    assert forall|i: int| 0 <= i < text.len() implies '\0' <= #[trigger] text[i] <= '\u{7f}' by {
        assert(bytes[i] < 128);
    }
    vstd::utf8::is_ascii_chars_encode_utf8(text);
    assert(vstd::utf8::encode_utf8(text) =~= bytes);
}

/// ASCII whitespace at the end of the input makes no difference to a
/// decoding run.
pub proof fn lemma_decoding_ignores_trailing_whitespace(
    decoding: Arguments,
    input: Seq<u8>,
    byte: u8,
)
    requires
        decoding.decode,
        is_ascii_whitespace(byte),
    ensures
        decoding.output(input.push(byte)) == decoding.output(input),
{
    lemma_trimmed_push(input, byte);
}

/// Round trip of two runs: what an encoding run writes, a decoding run
/// turns back into the input, whatever alphabet and padding the first run
/// used and whatever the second was given for them.
pub proof fn lemma_runs_round_trip(encoding: Arguments, decoding: Arguments, input: Seq<u8>)
    requires
        !encoding.decode,
        decoding.decode,
    ensures
        encoding.output(input) matches Ok(text) && decoding.output(text) == Ok::<Seq<u8>, Failure>(
            input,
        ),
{
    let text = encoded(encoding.scheme(), input);
    lemma_encoded_shape(encoding.scheme(), input);
    lemma_trimmed_push(text, LINE_FEED);
    if text.len() > 0 {
        let last = text.len() - 1;
        assert(text[last] == PAD || crate::encoding::is_symbol(encoding.scheme().alphabet(), text[last]));
    }
    lemma_trimmed_unchanged(text);
    lemma_round_trip(encoding.scheme(), input);
}

} // verus!
