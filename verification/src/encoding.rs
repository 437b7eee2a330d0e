//! What Base64 text is: the text that stands for a byte sequence under a
//! scheme, and the bytes that a text stands for.
//!
//! The bytes are read as one string of bits, most significant bit first, and
//! cut into groups of six; a last group that is short is filled with zero
//! bits. Each group is written as one symbol of the alphabet. A padded scheme
//! then adds `=` until the length is a multiple of four.

use vstd::prelude::*;
use crate::scheme::{Alphabet, Scheme};

verus! {

/// The padding byte, `=`.
pub const PAD: u8 = 0x3D;

/// The symbol that the alphabet has for a six-bit value.
pub open spec fn symbol(alphabet: Alphabet, value: int) -> u8
    recommends
        0 <= value < 64,
{
    if value < 26 {
        ('A' as u8 + value) as u8
    } else if value < 52 {
        ('a' as u8 + (value - 26)) as u8
    } else if value < 62 {
        ('0' as u8 + (value - 52)) as u8
    } else if value == 62 {
        match alphabet {
            Alphabet::Standard => '+' as u8,
            Alphabet::UrlSafe => '-' as u8,
        }
    } else {
        match alphabet {
            Alphabet::Standard => '/' as u8,
            Alphabet::UrlSafe => '_' as u8,
        }
    }
}

/// The byte at `index`, or zero past the end of the data.
pub open spec fn octet(data: Seq<u8>, index: int) -> int {
    if 0 <= index < data.len() {
        data[index] as int
    } else {
        0
    }
}

/// The six-bit group number `index` of the data's bits. Three bytes make
/// four groups.
pub open spec fn sextet(data: Seq<u8>, index: int) -> int {
    let base = 3 * (index / 4);
    let within = index % 4;
    if within == 0 {
        octet(data, base) / 4
    } else if within == 1 {
        octet(data, base) % 4 * 16 + octet(data, base + 1) / 16
    } else if within == 2 {
        octet(data, base + 1) % 16 * 4 + octet(data, base + 2) / 64
    } else {
        octet(data, base + 2) % 64
    }
}

/// How many symbols `len` bytes take: one for every six bits, rounded up.
pub open spec fn symbol_count(len: nat) -> nat {
    ((4 * len + 2) / 3) as nat
}

/// The length of the text for `len` bytes.
pub open spec fn encoded_len(padding: bool, len: nat) -> nat {
    if padding {
        4 * ((len + 2) / 3) as nat
    } else {
        symbol_count(len)
    }
}

/// The length of the text for `len` bytes, or `None` where that length is
/// more than a `usize` holds.
pub fn checked_encoded_len(padding: bool, len: usize) -> (text_len: Option<usize>)
    ensures
        match text_len {
            Some(n) => n == encoded_len(padding, len as nat),
            None => encoded_len(padding, len as nat) > usize::MAX,
        },
{
    let rest: usize = len % 3;
    let tail: usize = if rest == 0 {
        0
    } else if padding {
        4
    } else {
        rest + 1
    };
    match (len / 3).checked_mul(4) {
        Some(whole) => whole.checked_add(tail),
        None => None,
    }
}

/// The text that stands for `data` under `scheme`.
pub open spec fn encoded(scheme: Scheme, data: Seq<u8>) -> Seq<u8> {
    Seq::new(
        encoded_len(scheme.padding(), data.len()),
        |i: int|
            if i < symbol_count(data.len()) {
                symbol(scheme.alphabet(), sextet(data, i))
            } else {
                PAD
            },
    )
}

/// The bytes that `text` stands for under `scheme`, if it is the text of any.
/// Only the text that `encoded` gives is accepted: every byte a symbol of the
/// scheme's alphabet, the unused bits of the last symbol zero, and padding
/// exactly as the scheme writes it.
pub open spec fn decoded(scheme: Scheme, text: Seq<u8>) -> Option<Seq<u8>> {
    if exists|data: Seq<u8>| encoded(scheme, data) == text {
        Some(choose|data: Seq<u8>| encoded(scheme, data) == text)
    } else {
        None
    }
}

/// The characters of a text that is given as bytes.
pub open spec fn as_chars(text: Seq<u8>) -> Seq<char> {
    text.map_values(|byte: u8| byte as char)
}

/// Whether the byte is a symbol of the alphabet.
pub open spec fn is_symbol(alphabet: Alphabet, byte: u8) -> bool {
    ||| 'A' as u8 <= byte <= 'Z' as u8
    ||| 'a' as u8 <= byte <= 'z' as u8
    ||| '0' as u8 <= byte <= '9' as u8
    ||| match alphabet {
        Alphabet::Standard => byte == '+' as u8 || byte == '/' as u8,
        Alphabet::UrlSafe => byte == '-' as u8 || byte == '_' as u8,
    }
}

/// Every group of six bits is a value below 64.
pub proof fn lemma_sextet_range(data: Seq<u8>, index: int)
    ensures
        0 <= sextet(data, index) < 64,
{
}

/// An alphabet's symbols are its own, none is the padding byte, and no two
/// values share a symbol, in one alphabet or across the two.
pub proof fn lemma_symbol_distinct(a1: Alphabet, v1: int, a2: Alphabet, v2: int)
    requires
        0 <= v1 < 64,
        0 <= v2 < 64,
    ensures
        is_symbol(a1, symbol(a1, v1)),
        symbol(a1, v1) != PAD,
        symbol(a1, v1) == symbol(a2, v2) ==> v1 == v2,
{
}

/// The text has the length that `encoded_len` gives, its symbols come first
/// and are the scheme's own, and whatever follows them is padding.
pub proof fn lemma_encoded_shape(scheme: Scheme, data: Seq<u8>)
    ensures
        encoded(scheme, data).len() == encoded_len(scheme.padding(), data.len()),
        symbol_count(data.len()) <= encoded(scheme, data).len() <= symbol_count(data.len()) + 2,
        forall|i: int|
            0 <= i < symbol_count(data.len()) ==> is_symbol(
                scheme.alphabet(),
                #[trigger] encoded(scheme, data)[i],
            ),
        forall|i: int|
            symbol_count(data.len()) <= i < encoded(scheme, data).len() ==> #[trigger] encoded(
                scheme,
                data,
            )[i] == PAD,
{
    assert forall|i: int| 0 <= i < symbol_count(data.len()) implies is_symbol(
        scheme.alphabet(),
        #[trigger] encoded(scheme, data)[i],
    ) by {
        lemma_sextet_range(data, i);
        lemma_symbol_distinct(scheme.alphabet(), sextet(data, i), scheme.alphabet(), 0);
    }
}

/// No data has text under any scheme when the text holds a byte that is
/// neither a symbol of that scheme's alphabet nor the padding byte.
pub proof fn lemma_foreign_byte_not_decoded(scheme: Scheme, text: Seq<u8>, at: int)
    requires
        0 <= at < text.len(),
        !is_symbol(scheme.alphabet(), text[at]),
        text[at] != PAD,
    ensures
        decoded(scheme, text) is None,
{
    assert forall|data: Seq<u8>| encoded(scheme, data) != text by {
        lemma_encoded_shape(scheme, data);
        if encoded(scheme, data) == text {
            assert(encoded(scheme, data)[at] == text[at]);
        }
    }
}

/// Two byte sequences with the same text are the same, even where the two
/// texts were written under different schemes.
pub proof fn lemma_encoded_injective(s1: Scheme, d1: Seq<u8>, s2: Scheme, d2: Seq<u8>)
    requires
        encoded(s1, d1) == encoded(s2, d2),
    ensures
        d1 == d2,
{
    let text = encoded(s1, d1);
    let c1 = symbol_count(d1.len()) as int;
    let c2 = symbol_count(d2.len()) as int;
    lemma_encoded_shape(s1, d1);
    lemma_encoded_shape(s2, d2);
    // The symbols end at the same place in both, so the lengths agree.
    if c1 < c2 {
        assert(encoded(s1, d1)[c1] == PAD);
        assert(is_symbol(s2.alphabet(), encoded(s2, d2)[c1]));
    }
    if c2 < c1 {
        assert(encoded(s2, d2)[c2] == PAD);
        assert(is_symbol(s1.alphabet(), encoded(s1, d1)[c2]));
    }
    assert(d1.len() == d2.len());
    // Equal symbols stand for equal groups of bits.
    assert forall|i: int| 0 <= i < c1 implies sextet(d1, i) == sextet(d2, i) by {
        lemma_sextet_range(d1, i);
        lemma_sextet_range(d2, i);
        lemma_symbol_distinct(s1.alphabet(), sextet(d1, i), s2.alphabet(), sextet(d2, i));
        assert(encoded(s1, d1)[i] == symbol(s1.alphabet(), sextet(d1, i)));
        assert(encoded(s2, d2)[i] == symbol(s2.alphabet(), sextet(d2, i)));
    }
    // Each byte is spread over two neighbouring groups.
    assert forall|k: int| 0 <= k < d1.len() implies d1[k] == d2[k] by {
        let first = 4 * (k / 3) + k % 3;
        assert(sextet(d1, first) == sextet(d2, first));
        assert(sextet(d1, first + 1) == sextet(d2, first + 1));
    }
    assert(d1 =~= d2);
}

/// Decoding undoes encoding: the text of `data` stands for `data` and for
/// nothing else.
pub proof fn lemma_decoded_encoded(scheme: Scheme, data: Seq<u8>)
    ensures
        decoded(scheme, encoded(scheme, data)) == Some(data),
{
    let text = encoded(scheme, data);
    let found = choose|d: Seq<u8>| encoded(scheme, d) == text;
    lemma_encoded_injective(scheme, found, scheme, data);
}

/// What a scheme asks of a text that it accepts for `data`: the length that
/// `encoded_len` gives for the data; symbols of its own alphabet first, one
/// for every six bits; after them padding only, which a padded scheme needs
/// to fill the last four and an unpadded scheme does not take at all.
pub proof fn lemma_accepted_text(scheme: Scheme, text: Seq<u8>, data: Seq<u8>)
    requires
        decoded(scheme, text) == Some(data),
    ensures
        encoded(scheme, data) == text,
        text.len() == encoded_len(scheme.padding(), data.len()),
        forall|i: int|
            0 <= i < symbol_count(data.len()) ==> is_symbol(scheme.alphabet(), #[trigger] text[i]),
        forall|i: int| symbol_count(data.len()) <= i < text.len() ==> #[trigger] text[i] == PAD,
        scheme.padding() ==> text.len() % 4 == 0,
        !scheme.padding() ==> text.len() == symbol_count(data.len()) && text.len() % 4 != 1,
{
    lemma_encoded_shape(scheme, data);
}

/// A text that two schemes both accept stands for the same bytes under both.
pub proof fn lemma_decoded_agree(s1: Scheme, s2: Scheme, text: Seq<u8>)
    requires
        decoded(s1, text) is Some,
        decoded(s2, text) is Some,
    ensures
        decoded(s1, text) == decoded(s2, text),
{
    lemma_encoded_injective(s1, decoded(s1, text).unwrap(), s2, decoded(s2, text).unwrap());
}

/// Whether the byte is one of the four symbols in which the alphabets
/// differ: `+`, `/`, `-`, `_`.
pub open spec fn is_alphabet_specific(byte: u8) -> bool {
    byte == '+' as u8 || byte == '/' as u8 || byte == '-' as u8 || byte == '_' as u8
}

/// A text that uses none of the symbols in which the alphabets differ reads
/// the same under both: two schemes with the same padding rule accept it
/// alike, and find the same bytes in it.
pub proof fn lemma_shared_symbols_read_alike(s1: Scheme, s2: Scheme, text: Seq<u8>)
    requires
        s1.padding() == s2.padding(),
        forall|i: int| 0 <= i < text.len() ==> !is_alphabet_specific(#[trigger] text[i]),
    ensures
        decoded(s1, text) == decoded(s2, text),
{
    if decoded(s1, text) is Some {
        lemma_same_text_without_specific(s1, s2, decoded(s1, text).unwrap());
        lemma_decoded_agree(s1, s2, text);
    } else if decoded(s2, text) is Some {
        lemma_same_text_without_specific(s2, s1, decoded(s2, text).unwrap());
        lemma_decoded_agree(s1, s2, text);
    }
}

/// Data whose text under one scheme uses none of the symbols in which the
/// alphabets differ has the same text under the scheme with the other
/// alphabet and the same padding rule.
proof fn lemma_same_text_without_specific(s1: Scheme, s2: Scheme, data: Seq<u8>)
    requires
        s1.padding() == s2.padding(),
        forall|i: int|
            0 <= i < encoded(s1, data).len() ==> !is_alphabet_specific(
                #[trigger] encoded(s1, data)[i],
            ),
    ensures
        encoded(s2, data) == encoded(s1, data),
{
    assert forall|i: int| 0 <= i < encoded(s1, data).len() implies encoded(s2, data)[i]
        == encoded(s1, data)[i] by {
        lemma_sextet_range(data, i);
        assert(!is_alphabet_specific(encoded(s1, data)[i]));
    }
    assert(encoded(s2, data) =~= encoded(s1, data));
}

/// The text of no bytes is empty, padded or not.
pub proof fn lemma_encoded_empty(scheme: Scheme)
    ensures
        encoded(scheme, Seq::<u8>::empty()) == Seq::<u8>::empty(),
{
    assert(encoded(scheme, Seq::<u8>::empty()) =~= Seq::<u8>::empty());
}

} // verus!
