use spectre::{
    spectre_marshal_auth, spectre_marshal_read, spectre_marshal_redact, spectre_marshal_write,
    spectre_profile_dir, spectre_user_file_name, spectre_user_path, spectre_user_path_in, SpectreError, SpectreFormat,
    SpectreMarshalErrorType, SpectreMarshalInput, SpectreMarshalledQuestion,
    SpectreMarshalledSite, SpectreMarshalledUser, SpectreResultType, SpectreTimestamp,
};
use std::path::PathBuf;

/// The SHA-256 digest of the user key of the name `test` and the secret `test`.
const TEST_KEY_ID: [u8; 32] = [
    149, 33, 47, 174, 104, 66, 88, 40, 38, 246, 32, 212, 2, 177, 154, 234, 243, 138, 119, 214, 18,
    194, 69, 41, 189, 92, 137, 186, 207, 212, 34, 136,
];

const THEN: SpectreTimestamp = SpectreTimestamp { seconds: 1_700_000_000, nanos: 0 };

fn user(algorithm: u32) -> SpectreMarshalledUser {
    SpectreMarshalledUser::new_at("test".to_string(), [9, 9, 9, 9], TEST_KEY_ID, algorithm, THEN)
}

fn user_with_sites(redacted: bool) -> SpectreMarshalledUser {
    let mut user = user(3);
    user.redacted = redacted;
    user.login_type = SpectreResultType::Name;
    user.login_state = Some("c0ffee".to_string());
    let mut site = SpectreMarshalledSite::new_at(
        "example.com".to_string(),
        SpectreResultType::PersonalPassword,
        2,
        3,
        THEN,
    );
    site.result_state = Some("93f1f351afe3de".to_string());
    site.url = Some("https://example.com".to_string());
    site.add_question(SpectreMarshalledQuestion::new("pet".to_string(), SpectreResultType::Phrase));
    user.add_site(site);
    user.add_site(SpectreMarshalledSite::new_at(
        "github.com".to_string(),
        SpectreResultType::LongPassword,
        1,
        3,
        THEN,
    ));
    user
}

#[test]
fn the_right_secret_authenticates_and_refreshes_the_identicon() {
    let mut user = user(3);
    spectre_marshal_auth(&mut user, "test").expect("the secret is the profile's");
    assert_eq!(user.identicon, [180, 152, 124, 211]);
    assert_eq!(user.key_id, TEST_KEY_ID);
    assert_eq!(user.user_name, "test");
    assert_eq!(user.last_used, THEN);
}

#[test]
fn a_wrong_secret_is_a_mismatch_and_changes_nothing() {
    let mut user = user(3);
    match spectre_marshal_auth(&mut user, "wrong") {
        Err(SpectreError::UserSecretMismatch) => {}
        _ => panic!("the secret is not the profile's"),
    }
    assert_eq!(user.identicon, [9, 9, 9, 9]);
    assert_eq!(user.key_id, TEST_KEY_ID);
}

#[test]
fn an_unsupported_algorithm_is_refused_before_anything_is_derived() {
    let mut user = user(4);
    match spectre_marshal_auth(&mut user, "test") {
        Err(SpectreError::InvalidAlgorithm(4)) => {}
        _ => panic!("algorithm 4 must be refused"),
    }
    assert_eq!(user.identicon, [9, 9, 9, 9]);
}

#[test]
fn no_file_reads_as_a_fresh_default_record() {
    let (file, user) = spectre_marshal_read(SpectreMarshalInput::Absent).unwrap();
    assert!(user.is_none());
    assert_eq!(file.format, SpectreFormat::JSON);
    assert!(file.redacted);
    assert_eq!(file.error.error_type, SpectreMarshalErrorType::Success);
}

#[test]
fn a_user_in_json_reads_as_that_user() {
    let (file, read) =
        spectre_marshal_read(SpectreMarshalInput::Json(user_with_sites(false))).unwrap();
    let read = read.unwrap();
    assert_eq!(file.format, SpectreFormat::JSON);
    assert!(!file.redacted);
    assert_eq!(read.user_name, "test");
    assert_eq!(read.sites.len(), 2);
    assert_eq!(read.sites[0].site_name, "example.com");

    let (file, _) = spectre_marshal_read(SpectreMarshalInput::Json(user_with_sites(true))).unwrap();
    assert!(file.redacted);
}

#[test]
fn any_other_text_is_taken_for_the_flat_format_and_refused() {
    for text in ["", "# Master Password site export", "{ not json"] {
        match spectre_marshal_read(SpectreMarshalInput::Other(text.to_string())) {
            Err(SpectreError::InvalidFileFormat(message)) => assert_eq!(
                message,
                "Flat format parsing not fully implemented. Please use JSON format."
            ),
            _ => panic!("the flat format is not read"),
        }
    }
}

#[test]
fn nothing_is_written_where_nothing_is_persisted() {
    let written = spectre_marshal_write(SpectreFormat::FormatNone, &user_with_sites(false)).unwrap();
    assert!(written.is_none());
}

#[test]
fn the_flat_format_is_not_written() {
    match spectre_marshal_write(SpectreFormat::Flat, &user_with_sites(false)) {
        Err(SpectreError::InvalidFileFormat(message)) => {
            assert_eq!(message, "Flat format writing not fully implemented. Please use JSON format.")
        }
        _ => panic!("the flat format is not written"),
    }
}

#[test]
fn a_plain_profile_is_written_whole() {
    let user = user_with_sites(false);
    let written = spectre_marshal_write(SpectreFormat::JSON, &user).unwrap().unwrap();
    assert_eq!(written.user_name, "test");
    assert_eq!(written.identicon, user.identicon);
    assert_eq!(written.key_id, user.key_id);
    assert!(!written.redacted);
    assert_eq!(written.login_state.as_deref(), Some("c0ffee"));
    assert_eq!(written.sites.len(), 2);
    assert_eq!(written.sites[0].site_name, "example.com");
    assert_eq!(written.sites[0].result_state.as_deref(), Some("93f1f351afe3de"));
    assert_eq!(written.sites[0].url.as_deref(), Some("https://example.com"));
    assert_eq!(written.sites[0].questions[0].keyword, "pet");
    assert_eq!(written.sites[1].site_name, "github.com");
}

#[test]
fn a_redacted_profile_is_written_without_anything_of_its_sites() {
    let user = user_with_sites(true);
    let written = spectre_marshal_write(SpectreFormat::JSON, &user).unwrap().unwrap();
    assert!(written.redacted);
    assert!(written.sites.is_empty());
    assert_eq!(written.login_state, None);
    // What is known of the user stays.
    assert_eq!(written.user_name, "test");
    assert_eq!(written.identicon, user.identicon);
    assert_eq!(written.key_id, user.key_id);
    assert_eq!(written.algorithm, user.algorithm);
    assert_eq!(written.login_type, SpectreResultType::Name);
    assert_eq!(written.last_used, user.last_used);
    // The profile in memory keeps its sites.
    assert_eq!(user.sites.len(), 2);
}

#[test]
fn what_is_written_reads_back_as_it_was_written() {
    for redacted in [false, true] {
        let user = user_with_sites(redacted);
        let written = spectre_marshal_write(SpectreFormat::JSON, &user).unwrap().unwrap();
        let (file, read) = spectre_marshal_read(SpectreMarshalInput::Json(written)).unwrap();
        let read = read.unwrap();
        assert_eq!(file.redacted, redacted);
        assert_eq!(read.user_name, user.user_name);
        assert_eq!(read.key_id, user.key_id);
        assert_eq!(read.identicon, user.identicon);
        assert_eq!(read.algorithm, user.algorithm);
        assert_eq!(read.redacted, user.redacted);
        assert_eq!(read.login_type, user.login_type);
        assert_eq!(read.last_used, user.last_used);
        if redacted {
            assert!(read.sites.is_empty());
            assert_eq!(read.login_state, None);
        } else {
            assert_eq!(read.login_state, user.login_state);
            assert_eq!(read.sites.len(), user.sites.len());
            for (a, b) in read.sites.iter().zip(user.sites.iter()) {
                assert_eq!(a.site_name, b.site_name);
                assert_eq!(a.result_type, b.result_type);
                assert_eq!(a.result_state, b.result_state);
                assert_eq!(a.counter, b.counter);
                assert_eq!(a.algorithm, b.algorithm);
                assert_eq!(a.login_type, b.login_type);
                assert_eq!(a.login_state, b.login_state);
                assert_eq!(a.url, b.url);
                assert_eq!(a.uses, b.uses);
                assert_eq!(a.last_used, b.last_used);
                assert_eq!(a.questions.len(), b.questions.len());
            }
        }
    }
}

#[test]
fn redacting_twice_is_redacting_once() {
    for redacted in [true, false] {
        let once = spectre_marshal_redact(&user_with_sites(redacted));
        let twice = spectre_marshal_redact(&once);
        assert_eq!(twice.sites.len(), once.sites.len());
        assert_eq!(twice.login_state, once.login_state);
        assert_eq!(twice.redacted, once.redacted);
        assert_eq!(twice.user_name, once.user_name);
    }
}

#[test]
fn file_names() {
    assert_eq!(
        spectre_user_file_name("testuser", SpectreFormat::JSON).as_deref(),
        Some("testuser.json")
    );
    assert_eq!(
        spectre_user_file_name("Robert Lee Mitchell", SpectreFormat::Flat).as_deref(),
        Some("Robert Lee Mitchell.mpsites")
    );
    assert_eq!(spectre_user_file_name("", SpectreFormat::JSON).as_deref(), Some(".json"));
    assert_eq!(spectre_user_file_name("testuser", SpectreFormat::FormatNone), None);
}

#[test]
fn the_profile_directory() {
    assert_eq!(spectre_profile_dir(), ".spectre.d");
}

#[test]
fn paths_under_a_home_directory() {
    let home = PathBuf::from("/home/alice");
    assert_eq!(
        spectre_user_path_in(Some(home.clone()), "testuser", SpectreFormat::JSON),
        Some(PathBuf::from("/home/alice/.spectre.d/testuser.json"))
    );
    assert_eq!(
        spectre_user_path_in(Some(home.clone()), "testuser", SpectreFormat::Flat),
        Some(PathBuf::from("/home/alice/.spectre.d/testuser.mpsites"))
    );
    assert_eq!(spectre_user_path_in(Some(home), "testuser", SpectreFormat::FormatNone), None);
    assert_eq!(spectre_user_path_in(None, "testuser", SpectreFormat::JSON), None);
}

#[test]
fn the_default_path_ends_with_the_file_name() {
    let path = spectre_user_path("testuser", SpectreFormat::JSON).unwrap();
    assert!(path.ends_with(".spectre.d/testuser.json"));
    assert_eq!(spectre_user_path("testuser", SpectreFormat::FormatNone), None);
}
