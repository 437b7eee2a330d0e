//! Decoding a text whose scheme is not known: the four schemes are tried in
//! a fixed order and the first that accepts the text decides.

use vstd::prelude::*;
use crate::encoding::{
    decoded, encoded, is_alphabet_specific, is_symbol, lemma_decoded_agree, lemma_decoded_encoded,
    lemma_foreign_byte_not_decoded, lemma_shared_symbols_read_alike, PAD,
};
use crate::scheme::{Alphabet, Scheme};

verus! {

/// The schemes in the order in which they are tried: the standard alphabet
/// before the URL-safe one, and with padding before without.
pub open spec fn attempt_order() -> Seq<Scheme> {
    seq![Scheme::Standard, Scheme::StandardNoPad, Scheme::UrlSafe, Scheme::UrlSafeNoPad]
}

/// What the first scheme from position `from` on that accepts the text makes
/// of it; `None` where none of them accepts it.
pub open spec fn first_decoded(text: Seq<u8>, from: int) -> Option<Seq<u8>>
    decreases attempt_order().len() - from,
{
    if 0 <= from < attempt_order().len() {
        if decoded(attempt_order()[from], text) is Some {
            decoded(attempt_order()[from], text)
        } else {
            first_decoded(text, from + 1)
        }
    } else {
        None
    }
}

/// The bytes that the text stands for under the first scheme, in the order
/// of `attempt_order`, that accepts it.
pub open spec fn try_decoded(text: Seq<u8>) -> Option<Seq<u8>> {
    first_decoded(text, 0)
}

/// Every scheme has its place in the order of attempts.
pub proof fn lemma_attempt_order_complete(scheme: Scheme)
    ensures
        exists|at: int| 0 <= at < attempt_order().len() && attempt_order()[at] == scheme,
{
    let at: int = match scheme {
        Scheme::Standard => 0,
        Scheme::StandardNoPad => 1,
        Scheme::UrlSafe => 2,
        Scheme::UrlSafeNoPad => 3,
    };
    assert(attempt_order()[at] == scheme);
}

/// The order of attempts decides which scheme gets to read the text, never
/// what the text means: if any scheme accepts it, the text is decoded, and to
/// the bytes that this scheme reads in it.
pub proof fn lemma_try_decoded_any(text: Seq<u8>, scheme: Scheme)
    requires
        decoded(scheme, text) is Some,
    ensures
        try_decoded(text) == decoded(scheme, text),
{
    reveal_with_fuel(first_decoded, 5);
    lemma_attempt_order_complete(scheme);
    if decoded(Scheme::Standard, text) is Some {
        lemma_decoded_agree(Scheme::Standard, scheme, text);
    } else if decoded(Scheme::StandardNoPad, text) is Some {
        lemma_decoded_agree(Scheme::StandardNoPad, scheme, text);
    } else if decoded(Scheme::UrlSafe, text) is Some {
        lemma_decoded_agree(Scheme::UrlSafe, scheme, text);
    } else {
        lemma_decoded_agree(Scheme::UrlSafeNoPad, scheme, text);
    }
}

/// The standard alphabet with padding comes first: where it accepts the
/// text, its reading is the result, whatever the other schemes make of it.
pub proof fn lemma_standard_padded_first(text: Seq<u8>)
    requires
        decoded(Scheme::Standard, text) is Some,
    ensures
        try_decoded(text) == decoded(Scheme::Standard, text),
{
}

/// An ambiguous text: one that uses none of the symbols in which the
/// alphabets differ is accepted by the standard alphabet wherever the
/// URL-safe one accepts it. The standard alphabet is tried first and decides,
/// and the URL-safe one would have read the same bytes.
pub proof fn lemma_ambiguous_text(text: Seq<u8>)
    requires
        forall|i: int| 0 <= i < text.len() ==> !is_alphabet_specific(#[trigger] text[i]),
    ensures
        decoded(Scheme::Standard, text) == decoded(Scheme::UrlSafe, text),
        decoded(Scheme::StandardNoPad, text) == decoded(Scheme::UrlSafeNoPad, text),
        try_decoded(text) == if decoded(Scheme::Standard, text) is Some {
            decoded(Scheme::Standard, text)
        } else {
            decoded(Scheme::StandardNoPad, text)
        },
{
    reveal_with_fuel(first_decoded, 5);
    lemma_shared_symbols_read_alike(Scheme::Standard, Scheme::UrlSafe, text);
    lemma_shared_symbols_read_alike(Scheme::StandardNoPad, Scheme::UrlSafeNoPad, text);
}

/// A text is given up only when each of the four schemes refuses it.
pub proof fn lemma_try_decoded_none(text: Seq<u8>)
    ensures
        try_decoded(text) is None <==> forall|scheme: Scheme| decoded(scheme, text) is None,
{
    reveal_with_fuel(first_decoded, 5);
    if try_decoded(text) is None {
        assert forall|scheme: Scheme| decoded(scheme, text) is None by {
            lemma_attempt_order_complete(scheme);
        }
    }
}

/// Round trip: whichever scheme wrote the text, trying all of them reads the
/// same bytes back.
pub proof fn lemma_round_trip(scheme: Scheme, data: Seq<u8>)
    ensures
        try_decoded(encoded(scheme, data)) == Some(data),
{
    lemma_decoded_encoded(scheme, data);
    lemma_try_decoded_any(encoded(scheme, data), scheme);
}

/// A text that holds a byte which is neither a symbol of one of the two
/// alphabets nor the padding byte is refused by every scheme.
pub proof fn lemma_foreign_byte_refused(text: Seq<u8>, at: int)
    requires
        0 <= at < text.len(),
        !is_symbol(Alphabet::Standard, text[at]),
        !is_symbol(Alphabet::UrlSafe, text[at]),
        text[at] != PAD,
    ensures
        try_decoded(text) is None,
{
    assert forall|scheme: Scheme| decoded(scheme, text) is None by {
        lemma_foreign_byte_not_decoded(scheme, text, at);
    }
    lemma_try_decoded_none(text);
}

/// Tries to decode the input under each of the four schemes, in the order of
/// `attempt_order`, and returns what the first one that accepts it reads.
/// Later schemes are not consulted once one has accepted.
pub fn try_decode(input: &[u8]) -> (data: Option<Vec<u8>>)
    ensures
        match data {
            Some(bytes) => try_decoded(input@) == Some(bytes@),
            None => try_decoded(input@) is None,
        },
{
    let order = [Scheme::Standard, Scheme::StandardNoPad, Scheme::UrlSafe, Scheme::UrlSafeNoPad];
    assert(order@ =~= attempt_order());
    let mut at: usize = 0;
    while at < 4
        invariant
            at <= 4,
            order@ == attempt_order(),
            try_decoded(input@) == first_decoded(input@, at as int),
        decreases 4 - at,
    {
        match order[at].decode(input) {
            Some(bytes) => {
                return Some(bytes);
            },
            None => {},
        }
        at = at + 1;
    }
    None
}

} // verus!
