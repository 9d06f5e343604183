use pixu::id30::Id30;

#[test]
fn id30_roundtrip_u32() {
    let x = Id30::from(0x1234_5678);
    assert_eq!(u32::from(x), 0x1234_5678);
}

#[test]
fn id30_roundtrip_str() {
    let x: Id30 = "abcdef".parse().unwrap();
    assert_eq!(x.to_string(), "abcdef");
}

#[test]
fn id30_to_string() {
    let x = Id30::from(0x3FFF_FFFF);
    assert_eq!(x.to_string(), "zzzzzz");

    let x = Id30::from(0);
    assert_eq!(x.to_string(), "000000");
}

#[test]
fn id30_parse() {
    let x: Id30 = "zzzzzz".parse().unwrap();
    assert_eq!(x, Id30::from(0x3FFF_FFFF));

    let x: Id30 = "000000".parse().unwrap();
    assert_eq!(x, Id30::from(0));
}

#[test]
fn id30_from_keeps_the_thirty_low_bits() {
    assert_eq!(Id30::new(0xFFFF_FFFF).value(), 0x3FFF_FFFF);
    assert_eq!(Id30::new(0x4000_0001).value(), 1);
    assert_eq!(Id30::new(0x1234_5678).value(), 0x1234_5678);
}

#[test]
fn id30_spelling_takes_the_low_byte_first() {
    // The low byte 0x01 fills the first digit and the top of the second:
    // 00000 001|00 ...
    assert_eq!(Id30::from(1).to_string(), "040000");
    // The six bits of the top byte end the spelling.
    assert_eq!(Id30::from(0x3F00_0000).to_string(), "00001z");
    assert_eq!(Id30::from(0x1234_5678).to_string(), "f1b38j");
}

#[test]
fn id30_decode_inverts_encode_on_samples() {
    let samples: [u32; 8] =
        [0, 1, 2, 0xFF, 0x100, 0x1234_5678, 0x2AAA_AAAA, 0x3FFF_FFFF];
    for n in samples {
        let text = Id30::from(n).to_string();
        assert_eq!(text.chars().count(), 6);
        let back: Id30 = text.parse().unwrap();
        assert_eq!(back.value(), n);
    }
}

#[test]
fn id30_encode_inverts_decode_on_canonical_texts() {
    for text in ["000000", "abcdef", "zzzzzz", "0123ab", "9hjkmn", "pqrstv", "wxyz00"] {
        let id = Id30::from_str(text).unwrap();
        assert_eq!(id.to_string(), text);
    }
}

#[test]
fn id30_rejects_other_lengths() {
    assert!(Id30::from_str("").is_err());
    assert!(Id30::from_str("abcde").is_err());
    assert!(Id30::from_str("abcdefg").is_err());
    assert!(Id30::from_str("abcdefgh").is_err());
}

#[test]
fn id30_rejects_characters_outside_the_alphabet() {
    assert!(Id30::from_str("uuuuuu").is_err());
    assert!(Id30::from_str("abcdeu").is_err());
    assert!(Id30::from_str("abc-ef").is_err());
    assert!(Id30::from_str("abcde=").is_err());
    assert!(Id30::from_str("abcd\u{e9}f").is_err());
    assert!(Id30::from_str("\u{e9}\u{e9}\u{e9}").is_err());
}

#[test]
fn id30_reads_upper_case() {
    let canon = Id30::from_str("abcdef").unwrap();
    assert_eq!(Id30::from_str("ABCDEF").unwrap(), canon);
    assert_eq!(Id30::from_str("AbCdEf").unwrap(), canon);
    assert_eq!(Id30::from_str("ZZZZZZ").unwrap().value(), 0x3FFF_FFFF);
    assert_eq!(Id30::from_str("9HJKMN").unwrap().to_string(), "9hjkmn");
}

#[test]
fn id30_rejects_letters_that_no_spelling_holds() {
    // A base-32 reader may take `i` and `l` for 1 and `o` for 0; an
    // identifier is not read from them.
    for text in ["iiiiii", "IIIIII", "llllll", "LLLLLL", "oooooo", "OOOOOO", "uuuuuu", "UUUUUU"] {
        assert!(Id30::from_str(text).is_err(), "{}", text);
    }
    for text in ["abcdei", "abcdeL", "oabcde", "abCdOf", "00000I", "1l1111"] {
        assert!(Id30::from_str(text).is_err(), "{}", text);
    }
    assert!("ililil".parse::<Id30>().is_err());
}

#[test]
fn id30_accepts_each_symbol_in_either_case() {
    for c in "0123456789abcdefghjkmnpqrstvwxyz".chars() {
        let lower: String = std::iter::repeat(c).take(6).collect();
        let upper = lower.to_ascii_uppercase();
        let id = Id30::from_str(&lower).unwrap();
        assert_eq!(id.to_string(), lower);
        assert_eq!(Id30::from_str(&upper), Ok(id));
    }
    for c in "ilouILOU".chars() {
        let text: String = std::iter::repeat(c).take(6).collect();
        assert!(Id30::from_str(&text).is_err());
    }
}

#[test]
fn id30_new_random_stays_in_range() {
    let mut rng: rand::rngs::SmallRng = rand::SeedableRng::seed_from_u64(7);
    let mut seen_different = false;
    let first = Id30::new_random(&mut rng);
    for _ in 0..64 {
        let id = Id30::new_random(&mut rng);
        assert!(id.value() <= 0x3FFF_FFFF);
        if id != first {
            seen_different = true;
        }
    }
    assert!(seen_different);
}

#[test]
fn basic_db_roundtrip() {
    let stored = Id30::from(0x1234_5678).to_stored();
    assert_eq!(stored, 0x1234_5678);
    assert_eq!(Id30::from_stored(stored), Ok(Id30::from(0x1234_5678)));
}

#[test]
fn db_invalid_value_gives_error() {
    let res = Id30::from_stored(0x12345678);
    assert!(res.is_ok());

    let res = Id30::from_stored(0x7fffffff);
    assert!(res.is_err());
}

#[test]
fn stored_numbers_outside_thirty_bits_are_refused() {
    assert_eq!(Id30::from_stored(0), Ok(Id30::from(0)));
    assert_eq!(Id30::from_stored(0x3FFF_FFFF), Ok(Id30::from(0x3FFF_FFFF)));
    assert_eq!(Id30::from_stored(0x4000_0000), Err(()));
    assert_eq!(Id30::from_stored(-1), Err(()));
    assert_eq!(Id30::from_stored(i32::MIN), Err(()));
    assert_eq!(Id30::from(0x3FFF_FFFF).to_stored(), 0x3FFF_FFFF);
}
