use spectre::{parse_bool, zero_string};

#[test]
fn words_that_mean_yes() {
    for word in ["1", "true", "yes", "y", "on"] {
        assert!(parse_bool(word), "{:?}", word);
    }
}

#[test]
fn every_other_word_means_no() {
    for word in ["", "0", "false", "no", "n", "off", "TRUE", "Yes", "Y", "ON", " 1", "1 ", "11"] {
        assert!(!parse_bool(word), "{:?}", word);
    }
}

#[test]
fn a_wiped_secret_is_empty() {
    let mut secret = String::from("banana colored duckling");
    let capacity = secret.capacity();
    zero_string(&mut secret);
    assert_eq!(secret, "");
    assert_eq!(secret.len(), 0);
    assert_eq!(secret.capacity(), capacity);
}

#[test]
fn a_wiped_secret_of_many_bytes_per_character_is_empty() {
    let mut secret = String::from("pässwörd \u{1F534}");
    zero_string(&mut secret);
    assert!(secret.is_empty());
    let mut empty = String::new();
    zero_string(&mut empty);
    assert!(empty.is_empty());
}

#[test]
fn wiped_bytes_are_zero() {
    let mut bytes = vec![1u8, 2, 3, 255];
    spectre::zero_bytes(&mut bytes);
    assert_eq!(bytes, vec![0u8; 4]);
    let mut empty: Vec<u8> = Vec::new();
    spectre::zero_bytes(&mut empty);
    assert!(empty.is_empty());
}
