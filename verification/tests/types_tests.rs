use spectre::{
    char_class_for_template, SpectreError, SpectreKeyPurpose, SpectreResultType,
    SPECTRE_ALGORITHM_CURRENT, SPECTRE_ALGORITHM_FIRST, SPECTRE_ALGORITHM_LAST,
    SPECTRE_COUNTER_DEFAULT, SPECTRE_COUNTER_FIRST, SPECTRE_COUNTER_INITIAL, SPECTRE_COUNTER_LAST,
    SPECTRE_RESULT_DEFAULT_RESULT,
};
use std::str::FromStr;

#[test]
fn constants() {
    assert_eq!(SPECTRE_ALGORITHM_FIRST, 0);
    assert_eq!(SPECTRE_ALGORITHM_CURRENT, 3);
    assert_eq!(SPECTRE_ALGORITHM_LAST, 3);
    assert_eq!(SPECTRE_COUNTER_DEFAULT, 1);
    assert_eq!(SPECTRE_COUNTER_INITIAL, 0);
    assert_eq!(SPECTRE_COUNTER_FIRST, 0);
    assert_eq!(SPECTRE_COUNTER_LAST, u32::MAX);
    assert_eq!(SPECTRE_RESULT_DEFAULT_RESULT, SpectreResultType::LongPassword);
    assert_eq!(SpectreResultType::default(), SpectreResultType::ResultNone);
}

#[test]
fn purpose_names_and_scopes() {
    assert_eq!(SpectreKeyPurpose::Authentication.name(), "authentication");
    assert_eq!(SpectreKeyPurpose::Identification.name(), "identification");
    assert_eq!(SpectreKeyPurpose::Recovery.name(), "recovery");
    assert_eq!(SpectreKeyPurpose::Authentication.scope(), "com.lyndir.masterpassword");
    assert_eq!(SpectreKeyPurpose::Identification.scope(), "com.lyndir.masterpassword.login");
    assert_eq!(SpectreKeyPurpose::Recovery.scope(), "com.lyndir.masterpassword.answer");
}

#[test]
fn purpose_words() {
    for word in ["a", "auth", "authentication"] {
        assert_eq!(SpectreKeyPurpose::parse(word).unwrap(), SpectreKeyPurpose::Authentication);
        assert_eq!(SpectreKeyPurpose::from_str(word).unwrap(), SpectreKeyPurpose::Authentication);
    }
    for word in ["i", "ident", "identification"] {
        assert_eq!(SpectreKeyPurpose::parse(word).unwrap(), SpectreKeyPurpose::Identification);
    }
    for word in ["r", "rec", "recovery"] {
        assert_eq!(SpectreKeyPurpose::parse(word).unwrap(), SpectreKeyPurpose::Recovery);
    }
    for word in ["", "A", "Auth", "authenticate", "x", " a", "a "] {
        match SpectreKeyPurpose::parse(word) {
            Err(SpectreError::InvalidKeyPurpose(w)) => assert_eq!(w, word),
            _ => panic!("{:?} names no purpose", word),
        }
    }
}

#[test]
fn result_type_words() {
    let cases = vec![
        (vec!["x", "max", "maximum"], SpectreResultType::MaximumSecurityPassword),
        (vec!["l", "long"], SpectreResultType::LongPassword),
        (vec!["m", "medium"], SpectreResultType::MediumPassword),
        (vec!["b", "basic"], SpectreResultType::BasicPassword),
        (vec!["s", "short"], SpectreResultType::ShortPassword),
        (vec!["i", "pin"], SpectreResultType::PIN),
        (vec!["n", "name"], SpectreResultType::Name),
        (vec!["p", "phrase"], SpectreResultType::Phrase),
        (vec!["K", "key"], SpectreResultType::DeriveKey),
        (vec!["P", "personal"], SpectreResultType::PersonalPassword),
    ];
    for (words, expected) in cases {
        for word in words {
            assert_eq!(SpectreResultType::parse(word).unwrap(), expected);
            assert_eq!(SpectreResultType::from_str(word).unwrap(), expected);
        }
    }
    for word in ["", "none", "k", "X", "Long", "pins", "maximal"] {
        match SpectreResultType::parse(word) {
            Err(SpectreError::InvalidResultType(w)) => assert_eq!(w, word),
            _ => panic!("{:?} names no result type", word),
        }
    }
}

#[test]
fn result_type_short_names() {
    assert_eq!(SpectreResultType::MaximumSecurityPassword.short_name(), "maximum");
    assert_eq!(SpectreResultType::LongPassword.short_name(), "long");
    assert_eq!(SpectreResultType::MediumPassword.short_name(), "medium");
    assert_eq!(SpectreResultType::BasicPassword.short_name(), "basic");
    assert_eq!(SpectreResultType::ShortPassword.short_name(), "short");
    assert_eq!(SpectreResultType::PIN.short_name(), "pin");
    assert_eq!(SpectreResultType::Name.short_name(), "name");
    assert_eq!(SpectreResultType::Phrase.short_name(), "phrase");
    assert_eq!(SpectreResultType::DeriveKey.short_name(), "key");
    assert_eq!(SpectreResultType::PersonalPassword.short_name(), "personal");
    assert_eq!(SpectreResultType::ResultNone.short_name(), "none");
}

#[test]
fn short_names_read_back_as_their_type() {
    for result_type in [
        SpectreResultType::MaximumSecurityPassword,
        SpectreResultType::LongPassword,
        SpectreResultType::MediumPassword,
        SpectreResultType::BasicPassword,
        SpectreResultType::ShortPassword,
        SpectreResultType::PIN,
        SpectreResultType::Name,
        SpectreResultType::Phrase,
        SpectreResultType::DeriveKey,
        SpectreResultType::PersonalPassword,
    ] {
        assert_eq!(SpectreResultType::parse(result_type.short_name()).unwrap(), result_type);
    }
}

#[test]
fn stateful_types() {
    assert!(SpectreResultType::PersonalPassword.is_stateful());
    assert!(SpectreResultType::DeriveKey.is_stateful());
    for result_type in [
        SpectreResultType::MaximumSecurityPassword,
        SpectreResultType::LongPassword,
        SpectreResultType::MediumPassword,
        SpectreResultType::BasicPassword,
        SpectreResultType::ShortPassword,
        SpectreResultType::PIN,
        SpectreResultType::Name,
        SpectreResultType::Phrase,
        SpectreResultType::ResultNone,
    ] {
        assert!(!result_type.is_stateful());
    }
}

#[test]
fn template_table() {
    assert_eq!(
        SpectreResultType::MaximumSecurityPassword.template(),
        ["anoxxxxxxxxxxxxxxxxx", "axxxxxxxxxxxxxxxxxno"]
    );
    assert_eq!(
        SpectreResultType::LongPassword.template(),
        [
            "CvcvnoCvcvCvcv",
            "CvcvCvcvnoCvcv",
            "CvcvCvcvCvcvno",
            "CvccnoCvcvCvcv",
            "CvccCvcvnoCvcv",
            "CvccCvcvCvcvno",
            "CvcvnoCvccCvcv",
            "CvcvCvccnoCvcv",
            "CvcvCvccCvcvno",
            "CvcvnoCvcvCvcc",
            "CvcvCvcvnoCvcc",
            "CvcvCvcvCvccno",
            "CvccnoCvccCvcv",
            "CvccCvccnoCvcv",
            "CvccCvccCvcvno",
            "CvcvnoCvccCvcc",
            "CvcvCvccnoCvcc",
            "CvcvCvccCvccno",
            "CvccnoCvcvCvcc",
            "CvccCvcvnoCvcc",
            "CvccCvcvCvccno",
        ]
    );
    assert_eq!(SpectreResultType::MediumPassword.template(), ["CvcnoCvc", "CvcCvcno"]);
    assert_eq!(SpectreResultType::BasicPassword.template(), ["aaanaaan", "aannaaan", "aaannaaa"]);
    assert_eq!(SpectreResultType::ShortPassword.template(), ["Cvcn"]);
    assert_eq!(SpectreResultType::PIN.template(), ["nnnn"]);
    assert_eq!(SpectreResultType::Name.template(), ["cvccvcvcv"]);
    assert_eq!(
        SpectreResultType::Phrase.template(),
        ["cvcc cvc cvccvcv cvc", "cvc cvccvcvcv cvcv", "cv cvccv cvc cvcvccv"]
    );
    assert!(SpectreResultType::PersonalPassword.template().is_empty());
    assert!(SpectreResultType::DeriveKey.template().is_empty());
    assert!(SpectreResultType::ResultNone.template().is_empty());
}

fn class(c: char) -> String {
    char_class_for_template(c).iter().collect()
}

#[test]
fn character_classes() {
    assert_eq!(class('V'), "AEIOU");
    assert_eq!(class('C'), "BCDFGHJKLMNPQRSTVWXYZ");
    assert_eq!(class('v'), "aeiou");
    assert_eq!(class('c'), "bcdfghjklmnpqrstvwxyz");
    assert_eq!(class('A'), "ABCDEFGHIJKLMNOPQRSTUVWXYZ");
    assert_eq!(class('a'), "abcdefghijklmnopqrstuvwxyz");
    assert_eq!(class('n'), "0123456789");
    assert_eq!(class('o'), "@&%?,=[]_:-+*$#!'^~;()/.");
    assert_eq!(class('x'), "abcdefghijklmnopqrstuvwxyz");
    assert_eq!(class(' '), " ");
    for other in ['z', 'N', 'O', 'X', '0', '-', '\u{e9}', '\0'] {
        assert_eq!(class(other), "");
    }
    assert_eq!(class('C').chars().count(), 21);
    assert_eq!(class('o').chars().count(), 24);
}
