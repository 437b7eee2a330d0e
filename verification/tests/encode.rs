use anyb64::encoding::checked_encoded_len;
use anyb64::scheme::{Alphabet, Scheme};

const ALL: [Scheme; 4] =
    [Scheme::Standard, Scheme::StandardNoPad, Scheme::UrlSafe, Scheme::UrlSafeNoPad];

#[test]
fn select_follows_the_table() {
    assert_eq!(Scheme::select(Alphabet::Standard, true), Scheme::Standard);
    assert_eq!(Scheme::select(Alphabet::Standard, false), Scheme::StandardNoPad);
    assert_eq!(Scheme::select(Alphabet::UrlSafe, true), Scheme::UrlSafe);
    assert_eq!(Scheme::select(Alphabet::UrlSafe, false), Scheme::UrlSafeNoPad);
}

#[test]
fn scheme_reports_alphabet_and_padding() {
    assert_eq!(Scheme::Standard.alphabet(), Alphabet::Standard);
    assert_eq!(Scheme::StandardNoPad.alphabet(), Alphabet::Standard);
    assert_eq!(Scheme::UrlSafe.alphabet(), Alphabet::UrlSafe);
    assert_eq!(Scheme::UrlSafeNoPad.alphabet(), Alphabet::UrlSafe);
    assert!(Scheme::Standard.padding());
    assert!(!Scheme::StandardNoPad.padding());
    assert!(Scheme::UrlSafe.padding());
    assert!(!Scheme::UrlSafeNoPad.padding());
    for scheme in ALL {
        assert_eq!(Scheme::select(scheme.alphabet(), scheme.padding()), scheme);
    }
}

#[test]
fn foo_standard_padded() {
    assert_eq!(Scheme::Standard.encode(&[102, 111, 111]), "Zm9v");
}

#[test]
fn empty_input_gives_empty_text() {
    for scheme in ALL {
        assert_eq!(scheme.encode(&[]), "");
    }
}

#[test]
fn padding_fills_to_a_multiple_of_four() {
    assert_eq!(Scheme::Standard.encode(b"f"), "Zg==");
    assert_eq!(Scheme::Standard.encode(b"fo"), "Zm8=");
    assert_eq!(Scheme::Standard.encode(b"foo"), "Zm9v");
    assert_eq!(Scheme::Standard.encode(b"foob"), "Zm9vYg==");
    assert_eq!(Scheme::Standard.encode(b"fooba"), "Zm9vYmE=");
    assert_eq!(Scheme::Standard.encode(b"foobar"), "Zm9vYmFy");
    assert_eq!(Scheme::UrlSafe.encode(b"f"), "Zg==");
    assert_eq!(Scheme::UrlSafe.encode(b"fo"), "Zm8=");
}

#[test]
fn no_padding_leaves_the_text_short() {
    assert_eq!(Scheme::StandardNoPad.encode(b"f"), "Zg");
    assert_eq!(Scheme::StandardNoPad.encode(b"fo"), "Zm8");
    assert_eq!(Scheme::StandardNoPad.encode(b"foo"), "Zm9v");
    assert_eq!(Scheme::UrlSafeNoPad.encode(b"foob"), "Zm9vYg");
    assert_eq!(Scheme::UrlSafeNoPad.encode(b"fooba"), "Zm9vYmE");
}

#[test]
fn alphabets_differ_in_the_last_two_symbols() {
    assert_eq!(Scheme::Standard.encode(&[0xFB, 0xEF, 0xBE]), "++++");
    assert_eq!(Scheme::StandardNoPad.encode(&[0xFB, 0xEF, 0xBE]), "++++");
    assert_eq!(Scheme::UrlSafe.encode(&[0xFB, 0xEF, 0xBE]), "----");
    assert_eq!(Scheme::UrlSafeNoPad.encode(&[0xFB, 0xEF, 0xBE]), "----");
    assert_eq!(Scheme::Standard.encode(&[0xFF, 0xFF, 0xFF]), "////");
    assert_eq!(Scheme::UrlSafeNoPad.encode(&[0xFF, 0xFF, 0xFF]), "____");
    assert_eq!(Scheme::Standard.encode(&[0xFF]), "/w==");
    assert_eq!(Scheme::UrlSafeNoPad.encode(&[0xFF]), "_w");
    assert_eq!(Scheme::UrlSafe.encode(&[0xFF, 0xFE]), "__4=");
}

#[test]
fn url_safe_unpadded_scenario() {
    let text = Scheme::UrlSafeNoPad.encode(&[0xFB, 0xEF, 0xBE]);
    assert!(text.contains('-') || text.contains('_'));
    assert!(!text.contains('+') && !text.contains('/'));
    assert!(!text.ends_with('='));
    assert_eq!(anyb64::variants::try_decode(text.as_bytes()), Some(vec![0xFB, 0xEF, 0xBE]));
}

#[test]
fn every_value_has_its_symbol() {
    // The 64 six-bit values in order, three bytes for every four of them.
    let mut data = Vec::new();
    let mut value: u32 = 0;
    while value < 64 {
        let group = (value << 18) | ((value + 1) << 12) | ((value + 2) << 6) | (value + 3);
        data.push((group >> 16) as u8);
        data.push((group >> 8) as u8);
        data.push(group as u8);
        value += 4;
    }
    assert_eq!(
        Scheme::Standard.encode(&data),
        "ABCDEFGHIJKLMNOPQRSTUVWXYZabcdefghijklmnopqrstuvwxyz0123456789+/"
    );
    assert_eq!(
        Scheme::UrlSafeNoPad.encode(&data),
        "ABCDEFGHIJKLMNOPQRSTUVWXYZabcdefghijklmnopqrstuvwxyz0123456789-_"
    );
}

#[test]
fn text_length_matches_the_formula() {
    assert_eq!(checked_encoded_len(true, 0), Some(0));
    assert_eq!(checked_encoded_len(false, 0), Some(0));
    assert_eq!(checked_encoded_len(true, 1), Some(4));
    assert_eq!(checked_encoded_len(false, 1), Some(2));
    assert_eq!(checked_encoded_len(true, 2), Some(4));
    assert_eq!(checked_encoded_len(false, 2), Some(3));
    assert_eq!(checked_encoded_len(true, 3), Some(4));
    assert_eq!(checked_encoded_len(false, 3), Some(4));
    assert_eq!(checked_encoded_len(true, 4), Some(8));
    assert_eq!(checked_encoded_len(false, 4), Some(6));
    assert_eq!(checked_encoded_len(true, 1000), Some(1336));
    assert_eq!(checked_encoded_len(false, 1000), Some(1334));
    for len in 0..200usize {
        let data = vec![0xA5u8; len];
        for scheme in ALL {
            assert_eq!(
                checked_encoded_len(scheme.padding(), len),
                Some(scheme.encode(&data).len())
            );
        }
    }
}

#[test]
fn text_length_that_does_not_fit() {
    assert_eq!(checked_encoded_len(true, usize::MAX), None);
    assert_eq!(checked_encoded_len(false, usize::MAX), None);
    assert_eq!(checked_encoded_len(false, usize::MAX / 4 * 3 + 3), None);
    let most = usize::MAX / 4 * 3;
    assert_eq!(checked_encoded_len(true, most), Some(usize::MAX / 4 * 4));
    assert_eq!(checked_encoded_len(false, most + 2), Some(usize::MAX));
    assert_eq!(checked_encoded_len(true, most + 2), None);
}
