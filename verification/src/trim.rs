//! Trailing ASCII whitespace, which is taken off a text before it is decoded.

use vstd::prelude::*;
use vstd::slice::slice_subrange;

verus! {

/// Space, tab, line feed, form feed and carriage return.
pub open spec fn spec_is_ascii_whitespace(byte: u8) -> bool {
    byte == 0x20 || byte == 0x09 || byte == 0x0A || byte == 0x0C || byte == 0x0D
}

/// Whether the byte is ASCII whitespace.
#[verifier::when_used_as_spec(spec_is_ascii_whitespace)]
pub fn is_ascii_whitespace(byte: u8) -> (yes: bool)
    ensures
        yes == spec_is_ascii_whitespace(byte),
{
    byte == 0x20 || byte == 0x09 || byte == 0x0A || byte == 0x0C || byte == 0x0D
}

/// The input without the ASCII whitespace at its end. Whitespace elsewhere
/// stays, and so does whitespace that is not ASCII.
pub open spec fn trimmed(input: Seq<u8>) -> Seq<u8>
    decreases input.len(),
{
    if input.len() > 0 && is_ascii_whitespace(input.last()) {
        trimmed(input.drop_last())
    } else {
        input
    }
}

/// What trimming leaves is the longest start of the input that does not end
/// in ASCII whitespace.
pub proof fn lemma_trimmed(input: Seq<u8>)
    ensures
        trimmed(input).len() <= input.len(),
        trimmed(input) == input.take(trimmed(input).len() as int),
        trimmed(input).len() > 0 ==> !is_ascii_whitespace(trimmed(input).last()),
        forall|i: int| trimmed(input).len() <= i < input.len() ==> is_ascii_whitespace(input[i]),
    decreases input.len(),
{
    if input.len() > 0 && is_ascii_whitespace(input.last()) {
        let shorter = input.drop_last();
        lemma_trimmed(shorter);
        assert(shorter.take(trimmed(input).len() as int) =~= input.take(
            trimmed(input).len() as int,
        ));
        assert forall|i: int| trimmed(input).len() <= i < input.len() implies is_ascii_whitespace(
            input[i],
        ) by {
            if i < shorter.len() {
                assert(input[i] == shorter[i]);
            }
        }
    } else {
        assert(input.take(input.len() as int) =~= input);
    }
}

/// Trimming leaves alone an input that does not end in ASCII whitespace.
pub proof fn lemma_trimmed_unchanged(input: Seq<u8>)
    requires
        input.len() == 0 || !is_ascii_whitespace(input.last()),
    ensures
        trimmed(input) == input,
{
}

/// Trimming takes off whitespace that was added at the end.
pub proof fn lemma_trimmed_push(input: Seq<u8>, byte: u8)
    requires
        is_ascii_whitespace(byte),
    ensures
        trimmed(input.push(byte)) == trimmed(input),
{
    assert(input.push(byte).drop_last() =~= input);
}

/// Takes the ASCII whitespace off the end of the input.
pub fn trim_ascii_end(input: &[u8]) -> (kept: &[u8])
    ensures
        kept@ == trimmed(input@),
{
    let mut end: usize = input.len();
    assert(input@.take(end as int) =~= input@);
    while end > 0 && is_ascii_whitespace(input[end - 1])
        invariant
            end <= input@.len(),
            trimmed(input@) == trimmed(input@.take(end as int)),
        decreases end,
    {
        assert(input@.take(end as int).drop_last() =~= input@.take(end - 1));
        end = end - 1;
    }
    slice_subrange(input, 0, end)
}

} // verus!
