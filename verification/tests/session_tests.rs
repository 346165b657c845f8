use spectre::{
    spectre_name_valid, spectre_secret_valid, spectre_session_output, spectre_site_valid,
    SpectreCoordinator, SpectreKeyCache, SpectreKeyStep, SpectreResultType, SpectreUserKey,
    WorkerMessage,
};

/// The user key of the name `test` and the secret `test`.
const TEST_KEY: [u8; 64] = [
    180, 152, 124, 211, 201, 146, 8, 56, 231, 186, 202, 177, 200, 83, 250, 133, 229, 11, 244, 116,
    49, 21, 96, 228, 248, 61, 141, 32, 15, 250, 209, 144, 42, 196, 42, 69, 3, 226, 50, 136, 84, 47,
    90, 221, 113, 57, 143, 34, 252, 115, 163, 122, 163, 166, 47, 140, 139, 143, 184, 238, 229, 25,
    190, 125,
];

/// The SHA-256 digest of `TEST_KEY`.
const TEST_KEY_ID: [u8; 32] = [
    149, 33, 47, 174, 104, 66, 88, 40, 38, 246, 32, 212, 2, 177, 154, 234, 243, 138, 119, 214, 18,
    194, 69, 41, 189, 92, 137, 186, 207, 212, 34, 136,
];

fn test_key() -> SpectreUserKey {
    SpectreUserKey { key_id: TEST_KEY_ID, key_data: TEST_KEY.to_vec(), algorithm: 3 }
}

fn key_result() -> WorkerMessage {
    WorkerMessage::from_spectre_key(&test_key())
}

fn same_key(a: &SpectreUserKey, b: &SpectreUserKey) -> bool {
    a.key_id == b.key_id && a.key_data == b.key_data && a.algorithm == b.algorithm
}

/// The stamp of a request that was sent to the worker.
fn asked(step: SpectreKeyStep, name: &str, secret: &str) -> u64 {
    match step {
        SpectreKeyStep::Ask { stamp, message: WorkerMessage::GenerateKey { name: n, secret: s } } => {
            assert_eq!(n, name);
            assert_eq!(s, secret);
            stamp
        }
        _ => panic!("the worker is asked"),
    }
}

#[test]
fn thresholds_count_bytes() {
    assert!(!spectre_name_valid(""));
    assert!(!spectre_name_valid("ab"));
    assert!(spectre_name_valid("abc"));
    assert!(spectre_name_valid("\u{e9}a"));
    assert!(!spectre_secret_valid("abc"));
    assert!(spectre_secret_valid("abcd"));
    assert!(spectre_secret_valid("\u{1F534}"));
    assert!(!spectre_site_valid("a."));
    assert!(spectre_site_valid("a.b"));
}

#[test]
fn a_key_travels_in_a_key_result() {
    let message = key_result();
    match &message {
        WorkerMessage::KeyResult { key_id, key_data, algorithm } => {
            assert_eq!(key_id, &TEST_KEY_ID.to_vec());
            assert_eq!(key_data, &TEST_KEY.to_vec());
            assert_eq!(*algorithm, 3);
        }
        _ => panic!("a key travels in a key result"),
    }
    let back = message.to_spectre_key().unwrap();
    assert!(same_key(&back, &test_key()));
}

#[test]
fn a_key_result_of_wrong_lengths_carries_no_key() {
    for (id_len, data_len) in [(31, 64), (33, 64), (0, 64), (32, 63), (32, 65), (32, 0), (32, 4)] {
        let message = WorkerMessage::KeyResult {
            key_id: vec![1u8; id_len],
            key_data: vec![2u8; data_len],
            algorithm: 3,
        };
        assert!(message.to_spectre_key().is_none(), "{} and {}", id_len, data_len);
    }
}

#[test]
fn other_messages_carry_no_key() {
    let request = WorkerMessage::GenerateKey { name: "test".to_string(), secret: "test".to_string() };
    assert!(request.to_spectre_key().is_none());
    let error = WorkerMessage::KeyError { error: "out of memory".to_string() };
    assert!(error.to_spectre_key().is_none());
}

#[test]
fn the_cache_answers_for_its_one_name_and_secret() {
    let mut cache = SpectreKeyCache::new();
    assert!(cache.lookup("test", "test").is_none());
    assert!(cache.needs_computation("test", "test"));

    cache.store("test".to_string(), "test".to_string(), test_key());
    assert!(same_key(&cache.lookup("test", "test").unwrap(), &test_key()));
    assert!(!cache.needs_computation("test", "test"));
    assert!(cache.lookup("test", "other").is_none());
    assert!(cache.lookup("other", "test").is_none());
    assert!(cache.lookup("Test", "test").is_none());
    assert!(cache.needs_computation("test", "other"));
}

#[test]
fn the_cache_has_one_slot() {
    let mut cache = SpectreKeyCache::new();
    cache.store("test".to_string(), "test".to_string(), test_key());
    let other = SpectreUserKey { key_id: [1u8; 32], key_data: vec![2u8; 64], algorithm: 3 };
    cache.store("alice".to_string(), "secret".to_string(), other.clone());
    assert!(cache.lookup("test", "test").is_none());
    assert!(same_key(&cache.lookup("alice", "secret").unwrap(), &other));
    cache.clear();
    assert!(cache.lookup("alice", "secret").is_none());
    assert!(cache.slot.is_none());
}

#[test]
fn a_hit_derives_nothing() {
    let mut cache = SpectreKeyCache::new();
    // A key that no derivation gives shows that none was made.
    let marked = SpectreUserKey { key_id: [1u8; 32], key_data: vec![2u8; 64], algorithm: 3 };
    cache.store("test".to_string(), "test".to_string(), marked.clone());
    let key = cache.get_or_derive("test", "test").unwrap();
    assert!(same_key(&key, &marked));
}

#[test]
fn a_miss_derives_the_key_and_takes_the_slot() {
    let mut cache = SpectreKeyCache::new();
    let marked = SpectreUserKey { key_id: [1u8; 32], key_data: vec![2u8; 64], algorithm: 3 };
    cache.store("alice".to_string(), "secret".to_string(), marked);
    let key = cache.get_or_derive("test", "test").unwrap();
    assert!(same_key(&key, &test_key()));
    assert!(same_key(&cache.lookup("test", "test").unwrap(), &test_key()));
    assert!(cache.lookup("alice", "secret").is_none());
}

#[test]
fn a_new_coordinator_is_idle() {
    let coordinator = SpectreCoordinator::new();
    assert!(!coordinator.computing);
    assert_eq!(coordinator.issued, 0);
    assert!(coordinator.pending.is_none());
    assert!(coordinator.cache.slot.is_none());
}

#[test]
fn short_inputs_start_nothing() {
    let mut coordinator = SpectreCoordinator::new();
    for (name, secret) in [("", ""), ("ab", "abcd"), ("abc", "abc"), ("ab", "abc")] {
        match coordinator.request(name, secret, true) {
            SpectreKeyStep::Refused => {}
            _ => panic!("{:?} and {:?} are too short", name, secret),
        }
        match coordinator.request(name, secret, false) {
            SpectreKeyStep::Refused => {}
            _ => panic!("{:?} and {:?} are too short", name, secret),
        }
    }
    assert!(!coordinator.computing);
    assert_eq!(coordinator.issued, 0);
    assert!(coordinator.pending.is_none());
}

#[test]
fn the_worker_is_asked_and_its_key_is_cached() {
    let mut coordinator = SpectreCoordinator::new();
    let stamp = asked(coordinator.request("test", "test", true), "test", "test");
    assert_eq!(stamp, 1);
    assert!(coordinator.computing);
    assert_eq!(coordinator.issued, 1);
    assert_eq!(coordinator.pending.as_ref().unwrap().stamp, 1);

    match coordinator.respond(stamp, Some(&key_result())) {
        SpectreKeyStep::Ready(key) => assert!(same_key(&key, &test_key())),
        _ => panic!("the key is ready"),
    }
    assert!(!coordinator.computing);
    assert!(coordinator.pending.is_none());
    assert_eq!(coordinator.issued, 1);

    // The next request for the same inputs is answered from the cache.
    match coordinator.request("test", "test", true) {
        SpectreKeyStep::Ready(key) => assert!(same_key(&key, &test_key())),
        _ => panic!("the key is cached"),
    }
    assert_eq!(coordinator.issued, 1);
    assert!(!coordinator.computing);
}

#[test]
fn one_request_is_in_flight_at_a_time() {
    let mut coordinator = SpectreCoordinator::new();
    let stamp = asked(coordinator.request("test", "test", true), "test", "test");
    for (name, secret) in [("test", "test"), ("alice", "secret")] {
        for worker_ready in [true, false] {
            match coordinator.request(name, secret, worker_ready) {
                SpectreKeyStep::Wait => {}
                _ => panic!("a request is in flight"),
            }
        }
    }
    assert_eq!(coordinator.issued, stamp);
    assert_eq!(coordinator.pending.as_ref().unwrap().name, "test");
    assert!(coordinator.computing);
}

#[test]
fn stamps_go_up_with_each_request() {
    let mut coordinator = SpectreCoordinator::new();
    let first = asked(coordinator.request("test", "test", true), "test", "test");
    coordinator.respond(first, Some(&key_result()));
    let second = asked(coordinator.request("alice", "secret", true), "alice", "secret");
    assert_eq!((first, second), (1, 2));
}

#[test]
fn a_stale_answer_changes_nothing() {
    let mut coordinator = SpectreCoordinator::new();
    // No request in flight: every answer is stale.
    match coordinator.respond(1, Some(&key_result())) {
        SpectreKeyStep::Stale => {}
        _ => panic!("nothing is awaited"),
    }
    assert!(coordinator.cache.slot.is_none());

    let first = asked(coordinator.request("test", "test", true), "test", "test");
    coordinator.respond(first, Some(&key_result()));
    let second = asked(coordinator.request("alice", "secret", true), "alice", "secret");

    // The first answer comes once more, after the second request was sent.
    let late = WorkerMessage::KeyResult { key_id: vec![1u8; 32], key_data: vec![2u8; 64], algorithm: 3 };
    match coordinator.respond(first, Some(&late)) {
        SpectreKeyStep::Stale => {}
        _ => panic!("the answer is stale"),
    }
    match coordinator.respond(second + 1, None) {
        SpectreKeyStep::Stale => {}
        _ => panic!("the answer is of no request"),
    }
    assert!(coordinator.computing);
    assert_eq!(coordinator.pending.as_ref().unwrap().stamp, second);
    assert!(same_key(&coordinator.cache.lookup("test", "test").unwrap(), &test_key()));
}

#[test]
fn a_failed_worker_is_replaced_by_a_derivation_on_the_spot() {
    let mut coordinator = SpectreCoordinator::new();
    let stamp = asked(coordinator.request("test", "test", true), "test", "test");
    match coordinator.respond(stamp, None) {
        SpectreKeyStep::Recovered(key) => assert!(same_key(&key, &test_key())),
        _ => panic!("the key is derived on the spot"),
    }
    assert!(!coordinator.computing);
    assert!(coordinator.pending.is_none());
    assert!(same_key(&coordinator.cache.lookup("test", "test").unwrap(), &test_key()));
}

#[test]
fn a_faulty_answer_is_replaced_by_a_derivation_on_the_spot() {
    let mut coordinator = SpectreCoordinator::new();
    let stamp = asked(coordinator.request("test", "test", true), "test", "test");
    let faulty = WorkerMessage::KeyResult { key_id: vec![1u8; 32], key_data: vec![2u8; 4], algorithm: 3 };
    match coordinator.respond(stamp, Some(&faulty)) {
        SpectreKeyStep::Recovered(key) => assert!(same_key(&key, &test_key())),
        _ => panic!("the key is derived on the spot"),
    }
    assert!(!coordinator.computing);
}

#[test]
fn without_a_worker_the_key_is_derived_on_the_spot() {
    let mut coordinator = SpectreCoordinator::new();
    match coordinator.request("test", "test", false) {
        SpectreKeyStep::Ready(key) => assert!(same_key(&key, &test_key())),
        _ => panic!("the key is derived on the spot"),
    }
    assert!(!coordinator.computing);
    assert!(coordinator.pending.is_none());
    assert_eq!(coordinator.issued, 0);
    assert!(same_key(&coordinator.cache.lookup("test", "test").unwrap(), &test_key()));
}

#[test]
fn the_session_shows_the_credential_and_the_identicon() {
    let key = test_key();
    let out = spectre_session_output(
        "test",
        "test",
        "example.com",
        SpectreResultType::LongPassword,
        Some(&key),
    );
    assert_eq!(out.password, "JivrYeloQasg8[");
    assert_eq!(out.identicon, "\u{1F535}\u{1F534}\u{1F535}\u{1F7E2}");
    let pin = spectre_session_output("test", "test", "example.com", SpectreResultType::PIN, Some(&key));
    assert_eq!(pin.password, "2772");
}

#[test]
fn the_session_shows_nothing_for_short_inputs() {
    let key = test_key();
    for (name, secret, site) in [
        ("te", "test", "example.com"),
        ("test", "tes", "example.com"),
        ("test", "test", "ex"),
        ("", "", ""),
    ] {
        let out =
            spectre_session_output(name, secret, site, SpectreResultType::LongPassword, Some(&key));
        assert_eq!(out.password, "");
        assert_eq!(out.identicon, "");
    }
}

#[test]
fn the_session_shows_nothing_without_a_usable_key() {
    let out =
        spectre_session_output("test", "test", "example.com", SpectreResultType::LongPassword, None);
    assert_eq!(out.password, "");
    assert_eq!(out.identicon, "");

    let short = SpectreUserKey { key_id: [0u8; 32], key_data: vec![1, 2, 3], algorithm: 3 };
    let out = spectre_session_output(
        "test",
        "test",
        "example.com",
        SpectreResultType::LongPassword,
        Some(&short),
    );
    assert_eq!(out.password, "");
    assert_eq!(out.identicon, "");
}

#[test]
fn the_session_shows_nothing_for_a_type_without_a_credential() {
    let key = test_key();
    for result_type in [
        SpectreResultType::ResultNone,
        SpectreResultType::PersonalPassword,
        SpectreResultType::DeriveKey,
    ] {
        let out = spectre_session_output("test", "test", "example.com", result_type, Some(&key));
        assert_eq!(out.password, "");
        assert_eq!(out.identicon, "");
    }
}

#[test]
fn counters_step_between_the_default_and_the_largest() {
    assert_eq!(spectre::spectre_counter_up(1), 2);
    assert_eq!(spectre::spectre_counter_up(0), 1);
    assert_eq!(spectre::spectre_counter_up(u32::MAX - 1), u32::MAX);
    assert_eq!(spectre::spectre_counter_up(u32::MAX), u32::MAX);
    assert_eq!(spectre::spectre_counter_down(3), 2);
    assert_eq!(spectre::spectre_counter_down(2), 1);
    assert_eq!(spectre::spectre_counter_down(1), 1);
    assert_eq!(spectre::spectre_counter_down(0), 0);
}

#[test]
fn results_and_errors_answer_a_request() {
    assert!(key_result().is_answer());
    assert!(WorkerMessage::KeyError { error: "out of memory".to_string() }.is_answer());
    let request = WorkerMessage::GenerateKey { name: "test".to_string(), secret: "test".to_string() };
    assert!(!request.is_answer());
}
