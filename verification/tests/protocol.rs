use blackbook::models::UserTarget;
use blackbook::rategate::{RateGate, REFILL_PERIOD_NS};
use blackbook::resolver::{lookup_user_step, strip_prefix_all, ResolveStep};
use blackbook::retry::{next_lookup_action, LookupAction};
use blackbook::signature::{build_lookup_payload, generate_signature, json_escape, signed_lookup_body};
use blackbook::validators::{check_session, validate_input, ValidationError};

#[test]
fn signature_matches_known_hmac_vector() {
    // HMAC-SHA-256("key", "The quick brown fox jumps over the lazy dog")
    // = f7bc83f430538424b13298e6aa6fb143ef4d59a14946175997479dbc2d1a3cd8.
    let signed = generate_signature("The quick brown fox jumps over the lazy dog", "key", "4");
    assert_eq!(
        signed,
        "ig_sig_key_version=4&signed_body=\
         f7bc83f430538424b13298e6aa6fb143ef4d59a14946175997479dbc2d1a3cd8.\
         The%20quick%20brown%20fox%20jumps%20over%20the%20lazy%20dog"
    );
}

#[test]
fn signature_is_deterministic() {
    let a = generate_signature("{\"q\":\"jane\"}", "secret", "4");
    let b = generate_signature("{\"q\":\"jane\"}", "secret", "4");
    assert_eq!(a, b);
}

#[test]
fn signature_digest_changes_with_payload() {
    let a = generate_signature("{\"q\":\"jane\"}", "secret", "4");
    let b = generate_signature("{\"q\":\"john\"}", "secret", "4");
    let digest_a = a.split('.').next().unwrap().to_string();
    let digest_b = b.split('.').next().unwrap().to_string();
    assert_ne!(digest_a, digest_b);
}

#[test]
fn lookup_payload_is_canonical() {
    let payload = build_lookup_payload("jane_doe", "4");
    assert_eq!(
        payload,
        "{\"directly_sign_in\":\"true\",\"ig_sig_key_version\":\"4\",\
         \"login_attempt_count\":\"0\",\"q\":\"jane_doe\",\"source\":\"default\"}"
    );
}

#[test]
fn lookup_payload_escapes_the_query() {
    let payload = build_lookup_payload("a\"b", "4");
    assert!(payload.contains("\"q\":\"a\\\"b\""));
    assert_eq!(json_escape("a\"b\\c\nd\te\u{1}"), "a\\\"b\\\\c\\nd\\te\\u0001");
}

#[test]
fn signed_lookup_body_signs_the_canonical_payload() {
    let payload = build_lookup_payload("jane_doe", "4");
    let direct = generate_signature(&payload, "secret", "4");
    assert_eq!(signed_lookup_body("jane_doe", "secret", "4"), direct);
}

#[test]
fn retry_backoff_schedule() {
    // Three throttled responses back off 2, 4 and 8 seconds (14 in all).
    let mut total: u64 = 0;
    for attempt in 0..3u32 {
        match next_lookup_action(attempt, 429) {
            LookupAction::Retry { sleep_secs } => {
                assert_eq!(sleep_secs, 1u64 << (attempt + 1));
                total += sleep_secs;
            }
            other => panic!("attempt {} gave {:?}", attempt, other),
        }
    }
    assert_eq!(total, 14);
    // A fourth throttled response gives up without a fifth attempt.
    assert_eq!(next_lookup_action(3, 429), LookupAction::GiveUp);
}

#[test]
fn retry_accepts_any_non_throttled_status() {
    assert_eq!(next_lookup_action(0, 200), LookupAction::Accept);
    assert_eq!(next_lookup_action(2, 404), LookupAction::Accept);
    assert_eq!(next_lookup_action(3, 500), LookupAction::Accept);
}

#[test]
fn rate_gate_spaces_grants_one_second_apart() {
    let mut gate = RateGate::new();
    // The first token is free at once.
    assert_eq!(gate.acquire(0), 0);
    // Asking again half a second later waits the other half.
    assert_eq!(gate.acquire(REFILL_PERIOD_NS / 2), REFILL_PERIOD_NS / 2);
    // Asking long after the refill waits nothing.
    assert_eq!(gate.acquire(10 * REFILL_PERIOD_NS), 0);
}

#[test]
fn resolver_strips_the_page_prefix() {
    assert_eq!(strip_prefix_all("profilePage_12345", "profilePage_"), "12345");
    assert_eq!(strip_prefix_all("12345", "profilePage_"), "12345");
    assert_eq!(
        strip_prefix_all("profilePage_profilePage_7", "profilePage_"),
        "7"
    );
}

#[test]
fn resolver_fetches_details_on_page_id() {
    match lookup_user_step(true, Some("profilePage_98765")) {
        ResolveStep::FetchDetails { user_id } => assert_eq!(user_id, "98765"),
        ResolveStep::Absent => panic!("expected a details fetch"),
    }
}

#[test]
fn resolver_absent_when_page_id_missing() {
    // A successful response without the identifier is absent, not an error.
    assert!(matches!(lookup_user_step(true, None), ResolveStep::Absent));
    assert!(matches!(lookup_user_step(false, None), ResolveStep::Absent));
    assert!(matches!(
        lookup_user_step(false, Some("profilePage_1")),
        ResolveStep::Absent
    ));
}

fn target(name: &str, email: &str, phone: &str) -> UserTarget {
    UserTarget { name: name.to_string(), email: email.to_string(), phone: phone.to_string() }
}

#[test]
fn validate_input_accepts_a_sound_target() {
    assert!(validate_input(&target("Jane Doe", "jane.doe@example.com", "555 1234")).is_ok());
}

#[test]
fn validate_input_rejects_empty_name() {
    assert_eq!(
        validate_input(&target("", "jane.doe@example.com", "555 1234")),
        Err(ValidationError::EmptyName)
    );
}

#[test]
fn validate_input_rejects_bad_email() {
    assert_eq!(
        validate_input(&target("Jane Doe", "not-an-email", "555 1234")),
        Err(ValidationError::InvalidEmail)
    );
    assert_eq!(
        validate_input(&target("Jane Doe", "", "555 1234")),
        Err(ValidationError::InvalidEmail)
    );
}

#[test]
fn validate_input_rejects_short_phone() {
    assert_eq!(
        validate_input(&target("Jane Doe", "jane.doe@example.com", "12")),
        Err(ValidationError::PhoneTooShort)
    );
}

#[test]
fn session_check_fails_only_without_success() {
    assert!(check_session(true).is_ok());
    assert!(check_session(false).is_err());
}
