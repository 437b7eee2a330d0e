//! The four encoding schemes: an alphabet, with or without `=` padding.

use vstd::prelude::*;

verus! {

/// The 64 symbols that stand for the values 0 to 63. The two alphabets
/// differ only in the symbols for 62 and 63.
#[derive(Clone, Copy, Debug, PartialEq, Eq, Structural)]
pub enum Alphabet {
    /// `A`-`Z`, `a`-`z`, `0`-`9`, `+`, `/`.
    Standard,
    /// `A`-`Z`, `a`-`z`, `0`-`9`, `-`, `_`.
    UrlSafe,
}

/// An alphabet together with a padding rule.
#[derive(Clone, Copy, Debug, PartialEq, Eq, Structural)]
pub enum Scheme {
    /// Standard alphabet; text is padded with `=` to a multiple of four.
    Standard,
    /// Standard alphabet; text is never padded.
    StandardNoPad,
    /// URL-safe alphabet; text is padded with `=` to a multiple of four.
    UrlSafe,
    /// URL-safe alphabet; text is never padded.
    UrlSafeNoPad,
}

impl Scheme {
    /// The alphabet this scheme writes and accepts.
    pub open spec fn spec_alphabet(self) -> Alphabet {
        match self {
            Scheme::Standard | Scheme::StandardNoPad => Alphabet::Standard,
            Scheme::UrlSafe | Scheme::UrlSafeNoPad => Alphabet::UrlSafe,
        }
    }

    /// Whether this scheme writes, and insists on, `=` padding.
    pub open spec fn spec_padding(self) -> bool {
        self == Scheme::Standard || self == Scheme::UrlSafe
    }

    /// The scheme with the given alphabet and padding rule.
    pub fn select(alphabet: Alphabet, padding: bool) -> (scheme: Scheme)
        ensures
            scheme.alphabet() == alphabet,
            scheme.padding() == padding,
    {
        match (alphabet, padding) {
            (Alphabet::Standard, true) => Scheme::Standard,
            (Alphabet::Standard, false) => Scheme::StandardNoPad,
            (Alphabet::UrlSafe, true) => Scheme::UrlSafe,
            (Alphabet::UrlSafe, false) => Scheme::UrlSafeNoPad,
        }
    }

    /// The alphabet this scheme writes and accepts.
    #[verifier::when_used_as_spec(spec_alphabet)]
    pub fn alphabet(self) -> (alphabet: Alphabet)
        ensures
            alphabet == self.spec_alphabet(),
    {
        match self {
            Scheme::Standard | Scheme::StandardNoPad => Alphabet::Standard,
            Scheme::UrlSafe | Scheme::UrlSafeNoPad => Alphabet::UrlSafe,
        }
    }

    /// Whether this scheme writes, and insists on, `=` padding.
    #[verifier::when_used_as_spec(spec_padding)]
    pub fn padding(self) -> (padding: bool)
        ensures
            padding == self.spec_padding(),
    {
        match self {
            Scheme::Standard | Scheme::UrlSafe => true,
            Scheme::StandardNoPad | Scheme::UrlSafeNoPad => false,
        }
    }
}

/// Every scheme is the one selected by its own alphabet and padding rule, so
/// the two properties tell the four schemes apart.
pub proof fn lemma_scheme_determined(s1: Scheme, s2: Scheme)
    requires
        s1.alphabet() == s2.alphabet(),
        s1.padding() == s2.padding(),
    ensures
        s1 == s2,
{
}

} // verus!
