use causal_ops::change_hash::{ChangeHash, ParseChangeHashError, HASH_SIZE};
use causal_ops::error::InvalidChangeHashSlice;
use causal_ops::hex::HexError;
use std::cmp::Ordering;

fn hash_of(f: impl Fn(usize) -> u8) -> ChangeHash {
    let mut bytes = [0u8; 32];
    for (i, b) in bytes.iter_mut().enumerate() {
        *b = f(i);
    }
    ChangeHash(bytes)
}

#[test]
fn hash_text_round_trips() {
    let texts = [
        "0000000000000000000000000000000000000000000000000000000000000000",
        "ffffffffffffffffffffffffffffffffffffffffffffffffffffffffffffffff",
        "000102030405060708090a0b0c0d0e0f101112131415161718191a1b1c1d1e1f",
        "e3b0c44298fc1c149afbf4c8996fb92427ae41e4649b934ca495991b7852b855",
    ];
    for text in texts {
        assert_eq!(text.len(), 64);
        assert_eq!(ChangeHash::from_str(text).unwrap().to_string(), text);
        assert_eq!(text.parse::<ChangeHash>().unwrap().to_string(), text);
    }
    let h = ChangeHash::from_str(texts[2]).unwrap();
    assert_eq!(h, hash_of(|i| i as u8));
}

#[test]
fn hash_is_read_in_either_case_and_written_in_lower() {
    let upper = "E3B0C44298FC1C149AFBF4C8996FB92427AE41E4649B934CA495991B7852B855";
    let h = ChangeHash::from_str(upper).unwrap();
    assert_eq!(h.to_string(), upper.to_lowercase());
}

#[test]
fn hash_text_of_odd_length_is_refused() {
    let short = "0".repeat(63);
    let long = "0".repeat(65);
    assert_eq!(
        ChangeHash::from_str(&short),
        Err(ParseChangeHashError::HexDecode(HexError::OddLength))
    );
    assert_eq!(
        ChangeHash::from_str(&long),
        Err(ParseChangeHashError::HexDecode(HexError::OddLength))
    );
    assert_eq!(ChangeHash::from_str(&short).unwrap_err().to_string(), "Odd number of digits");
}

#[test]
fn hash_text_for_another_number_of_bytes_reports_the_number() {
    assert_eq!(
        ChangeHash::from_str(&"0".repeat(62)),
        Err(ParseChangeHashError::IncorrectLength { actual: 31 })
    );
    assert_eq!(
        ChangeHash::from_str(&"a".repeat(66)),
        Err(ParseChangeHashError::IncorrectLength { actual: 33 })
    );
    assert_eq!(ChangeHash::from_str(""), Err(ParseChangeHashError::IncorrectLength { actual: 0 }));
    assert_eq!(
        ParseChangeHashError::IncorrectLength { actual: 31 }.to_string(),
        "incorrect length, change hash should be 32 bytes, got 31"
    );
}

#[test]
fn hash_text_with_a_bad_character_reports_the_first() {
    let mut text = "0".repeat(64);
    text.replace_range(10..11, "g");
    text.replace_range(40..41, "z");
    let e = ChangeHash::from_str(&text).unwrap_err();
    assert_eq!(
        e,
        ParseChangeHashError::HexDecode(HexError::InvalidHexCharacter { c: 'g', index: 10 })
    );
    assert_eq!(e.to_string(), "Invalid character 'g' at position 10");
    let e = ChangeHash::from_str("0é0").unwrap_err();
    assert_eq!(
        e,
        ParseChangeHashError::HexDecode(HexError::InvalidHexCharacter { c: '\u{c3}', index: 1 })
    );
    assert_eq!(
        ChangeHash::from_str("0x"),
        Err(ParseChangeHashError::HexDecode(HexError::InvalidHexCharacter { c: 'x', index: 1 }))
    );
    assert_eq!(HexError::InvalidStringLength.to_string(), "Invalid string length");
}

#[test]
fn hash_bytes_and_checksum() {
    let h = hash_of(|i| (i * 3) as u8);
    assert_eq!(HASH_SIZE, 32);
    assert_eq!(h.as_bytes().len(), 32);
    assert_eq!(h.as_bytes(), &h.0[..]);
    assert_eq!(h.checksum(), [0, 3, 6, 9]);
    assert_eq!(hash_of(|_| 0xab).checksum(), [0xab; 4]);
}

#[test]
fn hash_from_a_slice() {
    let bytes: Vec<u8> = (100..132).collect();
    let h = ChangeHash::try_from(&bytes[..]).unwrap();
    assert_eq!(h.as_bytes(), &bytes[..]);
    assert_eq!(
        ChangeHash::try_from(&bytes[..31]),
        Err(InvalidChangeHashSlice(bytes[..31].to_vec()))
    );
    let longer: Vec<u8> = (0..33).collect();
    assert_eq!(ChangeHash::try_from(&longer[..]), Err(InvalidChangeHashSlice(longer.clone())));
    assert_eq!(ChangeHash::try_from(&[][..]), Err(InvalidChangeHashSlice(vec![])));
    assert_eq!(
        InvalidChangeHashSlice(vec![1, 2, 3]).to_string(),
        "invalid change hash slice: [1, 2, 3]"
    );
    assert_eq!(InvalidChangeHashSlice(vec![]).to_string(), "invalid change hash slice: []");
}

#[test]
fn hashes_are_ordered_as_their_bytes() {
    let hashes = vec![
        hash_of(|_| 0),
        hash_of(|i| if i == 31 { 1 } else { 0 }),
        hash_of(|i| if i == 30 { 1 } else { 0 }),
        hash_of(|i| if i == 0 { 1 } else { 0 }),
        hash_of(|i| if i == 0 { 1 } else { 255 }),
        hash_of(|i| if i == 0 { 2 } else { 0 }),
        hash_of(|i| i as u8),
        hash_of(|i| 255 - i as u8),
        hash_of(|_| 255),
    ];
    for a in &hashes {
        for b in &hashes {
            assert_eq!(a < b, a.0 < b.0);
            assert_eq!(a <= b, a.0 <= b.0);
            assert_eq!(a > b, a.0 > b.0);
            assert_eq!(a == b, a.0 == b.0);
            assert_eq!(a.partial_cmp(b), a.0.partial_cmp(&b.0));
            assert_eq!(a.cmp(b), a.0.cmp(&b.0));
            assert_eq!(a.partial_cmp(b), Some(a.cmp(b)));
        }
    }
    assert_eq!(hashes[1].cmp(&hashes[2]), Ordering::Less);
    assert_eq!(hashes[4].cmp(&hashes[5]), Ordering::Less);
}
