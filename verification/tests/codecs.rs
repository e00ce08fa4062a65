use solana_toolbox::base58::{base58_decode, base58_encode};
use solana_toolbox::base64::{base64_decode, base64_encode};

#[test]
fn base58_encode_of_known_bytes() {
    assert_eq!(base58_encode(&[]), "");
    assert_eq!(base58_encode(&[0]), "1");
    assert_eq!(base58_encode(&[0, 0, 1]), "112");
    assert_eq!(base58_encode(&[57]), "z");
    assert_eq!(base58_encode(&[58]), "21");
    assert_eq!(base58_encode(&[255]), "5Q");
    assert_eq!(base58_encode(&[1, 2, 3]), "Ldp");
    assert_eq!(base58_encode(b"hello world"), "StV1DL6CwTryKyV");
    assert_eq!(base58_encode(&[0u8; 32]), "11111111111111111111111111111111");
}

#[test]
fn base58_decode_of_known_texts() {
    assert_eq!(base58_decode(""), Some(vec![]));
    assert_eq!(base58_decode("1"), Some(vec![0]));
    assert_eq!(base58_decode("112"), Some(vec![0, 0, 1]));
    assert_eq!(base58_decode("z"), Some(vec![57]));
    assert_eq!(base58_decode("21"), Some(vec![58]));
    assert_eq!(base58_decode("5Q"), Some(vec![255]));
    assert_eq!(base58_decode("StV1DL6CwTryKyV"), Some(b"hello world".to_vec()));
}

#[test]
fn base58_decode_refuses_characters_outside_alphabet() {
    for bad in ["0", "O", "I", "l", " ", "-", "_", "=", "/", "é", "1 1", "abc0", "\n"] {
        assert_eq!(base58_decode(bad), None);
    }
}

#[test]
fn base58_decode_accepts_every_character_of_alphabet() {
    let alphabet = "123456789ABCDEFGHJKLMNPQRSTUVWXYZabcdefghijkmnopqrstuvwxyz";
    assert_eq!(alphabet.len(), 58);
    for (value, c) in alphabet.chars().enumerate() {
        let expected = if value == 0 { vec![0] } else { vec![value as u8] };
        assert_eq!(base58_decode(&c.to_string()), Some(expected));
    }
    assert!(base58_decode(alphabet).is_some());
}

#[test]
fn base58_round_trips() {
    let mut bytes: Vec<u8> = Vec::new();
    for round in 0..70u32 {
        let text = base58_encode(&bytes);
        assert_eq!(base58_decode(&text), Some(bytes.clone()));
        assert_eq!(text, bs58::encode(&bytes).into_string());
        let next = if round < 3 { 0 } else { (round * 89 + 7) as u8 };
        bytes.push(next);
    }
}

#[test]
fn base64_encode_of_known_bytes() {
    assert_eq!(base64_encode(&[]), "");
    assert_eq!(base64_encode(b"f"), "Zg==");
    assert_eq!(base64_encode(b"fo"), "Zm8=");
    assert_eq!(base64_encode(b"foo"), "Zm9v");
    assert_eq!(base64_encode(b"foob"), "Zm9vYg==");
    assert_eq!(base64_encode(b"fooba"), "Zm9vYmE=");
    assert_eq!(base64_encode(b"foobar"), "Zm9vYmFy");
    assert_eq!(base64_encode(&[1, 2, 3, 4]), "AQIDBA==");
    assert_eq!(base64_encode(&[0xfb, 0xff, 0xfe]), "+//+");
}

#[test]
fn base64_decode_of_known_texts() {
    assert_eq!(base64_decode(""), Some(vec![]));
    assert_eq!(base64_decode("Zg=="), Some(b"f".to_vec()));
    assert_eq!(base64_decode("Zm8="), Some(b"fo".to_vec()));
    assert_eq!(base64_decode("Zm9v"), Some(b"foo".to_vec()));
    assert_eq!(base64_decode("Zm9vYmFy"), Some(b"foobar".to_vec()));
    assert_eq!(base64_decode("+//+"), Some(vec![0xfb, 0xff, 0xfe]));
}

#[test]
fn base64_decode_refuses_text_of_no_bytes() {
    for bad in [
        "Z", "Zg", "Zg=", "Zm8", "Zh==", "Zm9=", "Zg==Zg==", "=", "====", "Zm9v=", "Zm 9v",
        "Zm9v\n", "-__-", "Zm9vYg", "Zg===", "Z===",
    ] {
        assert_eq!(base64_decode(bad), None);
    }
}

#[test]
fn base64_round_trips_and_has_four_characters_per_group() {
    let mut bytes: Vec<u8> = Vec::new();
    for round in 0..70u32 {
        let text = base64_encode(&bytes);
        assert_eq!(text.len(), 4 * ((bytes.len() + 2) / 3));
        assert_eq!(base64_decode(&text), Some(bytes.clone()));
        bytes.push((round * 151 + 3) as u8);
    }
}
