use spectre::SpectreError;

#[test]
fn messages() {
    assert_eq!(SpectreError::InvalidAlgorithm(4).message(), "Invalid algorithm version: 4");
    assert_eq!(SpectreError::InvalidAlgorithm(0).message(), "Invalid algorithm version: 0");
    assert_eq!(
        SpectreError::InvalidAlgorithm(u32::MAX).message(),
        "Invalid algorithm version: 4294967295"
    );
    assert_eq!(
        SpectreError::InvalidResultType("huge".to_string()).message(),
        "Invalid result type: huge"
    );
    assert_eq!(
        SpectreError::InvalidKeyPurpose("fun".to_string()).message(),
        "Invalid key purpose: fun"
    );
    assert_eq!(
        SpectreError::InvalidFileFormat("xml".to_string()).message(),
        "Invalid file format: xml"
    );
    assert_eq!(SpectreError::KeyDerivationFailed.message(), "User key derivation failed");
    assert_eq!(SpectreError::PasswordGenerationFailed.message(), "Password generation failed");
    assert_eq!(SpectreError::EncryptionFailed.message(), "Encryption failed");
    assert_eq!(SpectreError::DecryptionFailed.message(), "Decryption failed");
    assert_eq!(SpectreError::UserSecretMismatch.message(), "User secret mismatch");
    assert_eq!(
        SpectreError::MissingField("site name".to_string()).message(),
        "Missing required field: site name"
    );
    assert_eq!(SpectreError::MissingField(String::new()).message(), "Missing required field: ");
}

#[test]
fn counters_are_written_in_decimal_with_their_sign() {
    let cases: Vec<(i64, &str)> = vec![
        (0, "0"),
        (7, "7"),
        (10, "10"),
        (-1, "-1"),
        (-10, "-10"),
        (1_000_000, "1000000"),
        (4_294_967_296, "4294967296"),
        (i64::MAX, "9223372036854775807"),
        (i64::MIN + 1, "-9223372036854775807"),
        (i64::MIN, "-9223372036854775808"),
    ];
    for (value, text) in cases {
        assert_eq!(
            SpectreError::InvalidCounter(value).message(),
            format!("Invalid counter value: {}", text)
        );
        assert_eq!(
            SpectreError::InvalidCounter(value).message(),
            format!("Invalid counter value: {}", value)
        );
    }
}

#[test]
fn failures_of_other_libraries_keep_their_own_words() {
    let io = std::io::Error::new(std::io::ErrorKind::NotFound, "no such profile");
    let expected = format!("File I/O error: {}", io);
    let error = SpectreError::from(io);
    assert!(matches!(error, SpectreError::Io(_)));
    assert_eq!(error.message(), expected);
    assert_eq!(error.message(), "File I/O error: no such profile");

    let json = serde_json::from_str::<serde_json::Value>("{").unwrap_err();
    let expected = format!("JSON error: {}", json);
    let error = SpectreError::from(json);
    assert!(matches!(error, SpectreError::Json(_)));
    assert_eq!(error.message(), expected);
}
