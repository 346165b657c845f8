use spectre::{
    SpectreFormat, SpectreMarshalError, SpectreMarshalErrorType, SpectreMarshalledFile,
    SpectreMarshalledQuestion, SpectreMarshalledSite, SpectreMarshalledUser, SpectreResultType,
    SpectreTimestamp, SPECTRE_ALGORITHM_CURRENT, SPECTRE_FORMAT_DEFAULT, SPECTRE_FORMAT_FIRST,
    SPECTRE_FORMAT_LAST,
};

const THEN: SpectreTimestamp = SpectreTimestamp { seconds: 1_700_000_000, nanos: 123_456_789 };

fn site(name: &str, counter: u32) -> SpectreMarshalledSite {
    SpectreMarshalledSite::new_at(
        name.to_string(),
        SpectreResultType::LongPassword,
        counter,
        SPECTRE_ALGORITHM_CURRENT,
        THEN,
    )
}

fn user() -> SpectreMarshalledUser {
    SpectreMarshalledUser::new_at(
        "testuser".to_string(),
        [0, 1, 2, 3],
        [7u8; 32],
        SPECTRE_ALGORITHM_CURRENT,
        THEN,
    )
}

fn site_names(user: &SpectreMarshalledUser) -> Vec<&str> {
    user.sites.iter().map(|s| s.site_name.as_str()).collect()
}

#[test]
fn format_words() {
    assert_eq!(SpectreFormat::parse("n"), Some(SpectreFormat::FormatNone));
    assert_eq!(SpectreFormat::parse("none"), Some(SpectreFormat::FormatNone));
    assert_eq!(SpectreFormat::parse("f"), Some(SpectreFormat::Flat));
    assert_eq!(SpectreFormat::parse("flat"), Some(SpectreFormat::Flat));
    assert_eq!(SpectreFormat::parse("j"), Some(SpectreFormat::JSON));
    assert_eq!(SpectreFormat::parse("json"), Some(SpectreFormat::JSON));
    for word in ["", "J", "JSON", "mpsites", "jsonl", " json"] {
        assert_eq!(SpectreFormat::parse(word), None);
    }
}

#[test]
fn format_names_and_extensions() {
    assert_eq!(SpectreFormat::FormatNone.name(), "none");
    assert_eq!(SpectreFormat::Flat.name(), "flat");
    assert_eq!(SpectreFormat::JSON.name(), "json");
    assert_eq!(SpectreFormat::FormatNone.extension(), "");
    assert_eq!(SpectreFormat::Flat.extension(), "mpsites");
    assert_eq!(SpectreFormat::JSON.extension(), "json");
    assert_eq!(SPECTRE_FORMAT_DEFAULT, SpectreFormat::JSON);
    assert_eq!(SPECTRE_FORMAT_FIRST, SpectreFormat::Flat);
    assert_eq!(SPECTRE_FORMAT_LAST, SpectreFormat::JSON);
    for format in [SpectreFormat::FormatNone, SpectreFormat::Flat, SpectreFormat::JSON] {
        assert_eq!(SpectreFormat::parse(format.name()), Some(format));
    }
}

#[test]
fn a_marshal_error_starts_as_success() {
    let error = SpectreMarshalError::default();
    assert_eq!(error.error_type, SpectreMarshalErrorType::Success);
    assert_eq!(error.message, "");
}

#[test]
fn a_file_record_starts_without_an_error() {
    let file = SpectreMarshalledFile::new_at(SpectreFormat::Flat, false, THEN);
    assert_eq!(file.format, SpectreFormat::Flat);
    assert!(!file.redacted);
    assert_eq!(file.date, THEN);
    assert_eq!(file.error.error_type, SpectreMarshalErrorType::Success);
    assert_eq!(file.error.message, "");
    let now = SpectreMarshalledFile::new(SpectreFormat::JSON, true);
    assert_eq!(now.format, SpectreFormat::JSON);
    assert!(now.redacted);
    assert!(now.date.seconds > 1_600_000_000);
    assert!(now.date.nanos < 2_000_000_000);
}

#[test]
fn a_new_user_is_redacted_and_has_no_sites() {
    let user = SpectreMarshalledUser::new(
        "testuser".to_string(),
        [0, 1, 2, 3],
        [0u8; 32],
        SPECTRE_ALGORITHM_CURRENT,
    );
    assert_eq!(user.user_name, "testuser");
    assert_eq!(user.identicon, [0, 1, 2, 3]);
    assert_eq!(user.key_id, [0u8; 32]);
    assert_eq!(user.algorithm, 3);
    assert!(user.redacted);
    assert_eq!(user.login_type, SpectreResultType::ResultNone);
    assert_eq!(user.login_state, None);
    assert!(user.sites.is_empty());
    assert!(user.last_used.seconds > 1_600_000_000);
}

#[test]
fn a_new_site_was_never_used() {
    let site =
        SpectreMarshalledSite::new("example.com".to_string(), SpectreResultType::Phrase, 5, 2);
    assert_eq!(site.site_name, "example.com");
    assert_eq!(site.result_type, SpectreResultType::Phrase);
    assert_eq!(site.result_state, None);
    assert_eq!(site.counter, 5);
    assert_eq!(site.algorithm, 2);
    assert_eq!(site.login_type, SpectreResultType::ResultNone);
    assert_eq!(site.login_state, None);
    assert_eq!(site.url, None);
    assert_eq!(site.uses, 0);
    assert!(site.questions.is_empty());
    let at = site_at();
    assert_eq!(at.last_used, THEN);
}

fn site_at() -> SpectreMarshalledSite {
    site("example.com", 1)
}

#[test]
fn a_new_question_has_no_state() {
    let question = SpectreMarshalledQuestion::new("mother".to_string(), SpectreResultType::Phrase);
    assert_eq!(question.keyword, "mother");
    assert_eq!(question.question_type, SpectreResultType::Phrase);
    assert_eq!(question.state, None);
}

#[test]
fn sites_keep_the_order_in_which_they_were_added() {
    let mut user = user();
    user.add_site(site("c.com", 1));
    user.add_site(site("a.com", 1));
    user.add_site(site("b.com", 1));
    assert_eq!(site_names(&user), ["c.com", "a.com", "b.com"]);
}

#[test]
fn a_site_of_the_same_name_is_replaced_in_place() {
    let mut user = user();
    user.add_site(site("a.com", 1));
    user.add_site(site("b.com", 1));
    user.add_site(site("c.com", 1));
    user.add_site(site("b.com", 9));
    assert_eq!(site_names(&user), ["a.com", "b.com", "c.com"]);
    assert_eq!(user.sites[1].counter, 9);
    assert_eq!(user.sites[0].counter, 1);
    assert_eq!(user.sites[2].counter, 1);
}

#[test]
fn names_are_matched_exactly() {
    let mut user = user();
    user.add_site(site("a.com", 1));
    user.add_site(site("A.com", 2));
    user.add_site(site("a.com ", 3));
    user.add_site(site("", 4));
    assert_eq!(site_names(&user), ["a.com", "A.com", "a.com ", ""]);
    assert_eq!(user.find_site("A.com").unwrap().counter, 2);
    assert_eq!(user.find_site("").unwrap().counter, 4);
    assert!(user.find_site("a.co").is_none());
    assert!(user.find_site("b.com").is_none());
}

#[test]
fn the_first_site_of_a_name_is_the_one_that_counts() {
    let mut user = user();
    // A profile that was written by hand may hold a name twice.
    user.sites.push(site("a.com", 1));
    user.sites.push(site("b.com", 2));
    user.sites.push(site("a.com", 3));
    assert_eq!(user.find_site("a.com").unwrap().counter, 1);
    user.find_site_mut("a.com").unwrap().counter = 10;
    assert_eq!(user.sites[0].counter, 10);
    assert_eq!(user.sites[2].counter, 3);
    user.add_site(site("a.com", 20));
    assert_eq!(user.sites.len(), 3);
    assert_eq!(user.sites[0].counter, 20);
    assert_eq!(user.sites[2].counter, 3);
}

#[test]
fn a_site_is_changed_in_place() {
    let mut user = user();
    user.add_site(site("a.com", 1));
    user.add_site(site("b.com", 1));
    {
        let found = user.find_site_mut("b.com").unwrap();
        found.uses = 7;
        found.url = Some("https://b.com".to_string());
    }
    assert_eq!(user.sites[1].uses, 7);
    assert_eq!(user.sites[1].url.as_deref(), Some("https://b.com"));
    assert_eq!(user.sites[0].uses, 0);
    assert!(user.find_site_mut("c.com").is_none());
    assert_eq!(user.sites.len(), 2);
}

#[test]
fn found_after_added() {
    let mut user = user();
    assert!(user.find_site("a.com").is_none());
    user.add_site(site("a.com", 4));
    assert_eq!(user.find_site("a.com").unwrap().counter, 4);
}

#[test]
fn questions_are_added_found_and_replaced_like_sites() {
    let mut site = site("a.com", 1);
    assert!(site.find_question("").is_none());
    site.add_question(SpectreMarshalledQuestion::new("".to_string(), SpectreResultType::Phrase));
    site.add_question(SpectreMarshalledQuestion::new("mother".to_string(), SpectreResultType::Name));
    site.add_question(SpectreMarshalledQuestion::new("pet".to_string(), SpectreResultType::Phrase));
    let keywords: Vec<&str> = site.questions.iter().map(|q| q.keyword.as_str()).collect();
    assert_eq!(keywords, ["", "mother", "pet"]);
    assert_eq!(site.find_question("").unwrap().question_type, SpectreResultType::Phrase);
    assert_eq!(site.find_question("mother").unwrap().question_type, SpectreResultType::Name);
    assert!(site.find_question("Mother").is_none());

    site.add_question(SpectreMarshalledQuestion::new("mother".to_string(), SpectreResultType::PIN));
    assert_eq!(site.questions.len(), 3);
    assert_eq!(site.questions[1].keyword, "mother");
    assert_eq!(site.questions[1].question_type, SpectreResultType::PIN);

    site.find_question_mut("pet").unwrap().state = Some("0a0b".to_string());
    assert_eq!(site.questions[2].state.as_deref(), Some("0a0b"));
    assert_eq!(site.questions[0].state, None);
    assert!(site.find_question_mut("car").is_none());
}

#[test]
fn copies_are_equal_and_independent() {
    let mut user = user();
    let mut first = site("a.com", 1);
    first.result_state = Some("beef".to_string());
    first.add_question(SpectreMarshalledQuestion::new("pet".to_string(), SpectreResultType::Phrase));
    user.add_site(first);
    user.login_state = Some("cafe".to_string());

    let mut copy = user.clone();
    assert_eq!(copy.user_name, user.user_name);
    assert_eq!(copy.identicon, user.identicon);
    assert_eq!(copy.key_id, user.key_id);
    assert_eq!(copy.login_state, user.login_state);
    assert_eq!(copy.last_used, user.last_used);
    assert_eq!(copy.sites.len(), 1);
    assert_eq!(copy.sites[0].site_name, "a.com");
    assert_eq!(copy.sites[0].result_state.as_deref(), Some("beef"));
    assert_eq!(copy.sites[0].questions[0].keyword, "pet");

    copy.sites[0].counter = 99;
    assert_eq!(user.sites[0].counter, 1);
}
