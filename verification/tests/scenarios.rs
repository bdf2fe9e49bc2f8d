use blackbook::models::{LookupResponse, ProfilePic, UserProfile, UserTarget};
use blackbook::pipeline::{merge_details, process_candidate, strip_marker};
use blackbook::scoring::{evaluate_result, match_score, stop_search, tier_of, MatchTier};

fn profile(full_name: &str, public_email: &str, public_phone: &str) -> UserProfile {
    UserProfile {
        username: "jane_doe".to_string(),
        full_name: full_name.to_string(),
        user_id: 42,
        is_private: false,
        is_verified: false,
        follower_count: 10,
        following_count: 20,
        external_url: String::new(),
        biography: String::new(),
        public_email: public_email.to_string(),
        public_phone_number: public_phone.to_string(),
        media_count: 3,
        hd_profile_pic_url_info: ProfilePic { url: "https://pic.example/x.jpg".to_string() },
    }
}

fn empty_hint() -> LookupResponse {
    LookupResponse { message: None, obfuscated_email: None, obfuscated_phone: None }
}

fn target() -> UserTarget {
    UserTarget {
        name: "Jane Doe".to_string(),
        email: "jane.doe@example.com".to_string(),
        phone: "555 1234".to_string(),
    }
}

#[test]
fn scenario_two_signals_give_medium_and_no_stop() {
    // Name matches; the public email's domain differs from the target's, so
    // the email signal stays unmatched; the phone's first token and last
    // two characters agree. Two flags: MEDIUM, and the search goes on.
    let t = target();
    let p = profile("Jane Doe", "jdoe@example.org", "555 9934");
    let result = process_candidate(Some(p), &empty_hint()).expect("profile resolved");
    let ev = evaluate_result(&result, &t.name, &t.email, &t.phone);
    assert!(ev.name_matched);
    assert!(!ev.email_matched);
    assert!(ev.phone_matched);
    let score = match_score(&ev);
    assert_eq!(score, 2);
    assert_eq!(tier_of(score), MatchTier::Medium);
    assert!(!stop_search(score));
}

#[test]
fn scenario_three_signals_give_high_and_stop() {
    // Identical name, a public email equal to the target (same domain, same
    // first and last local characters), and a matching phone: three flags,
    // HIGH, and the emission halts the pipeline before further candidates.
    let t = target();
    let p = profile("Jane Doe", "jane.doe@example.com", "555 1234");
    let result = process_candidate(Some(p), &empty_hint()).expect("profile resolved");
    let ev = evaluate_result(&result, &t.name, &t.email, &t.phone);
    assert!(ev.name_matched && ev.email_matched && ev.phone_matched);
    let score = match_score(&ev);
    assert_eq!(score, 3);
    assert_eq!(tier_of(score), MatchTier::High);
    // The sink stops the search in either output mode: the stop signal
    // follows the flag count alone.
    assert!(stop_search(score));
}

#[test]
fn scenario_zero_candidates_emit_nothing() {
    // With no candidates the pipeline completes at once: no result is
    // emitted and nothing fails.
    let t = target();
    let candidates: Vec<String> = Vec::new();
    let mut emitted: Vec<MatchTier> = Vec::new();
    for handle in &candidates {
        let clean = strip_marker(handle);
        let _ = clean;
        let result = process_candidate(None, &empty_hint());
        if let Some(r) = result {
            let ev = evaluate_result(&r, &t.name, &t.email, &t.phone);
            emitted.push(tier_of(match_score(&ev)));
        }
    }
    assert!(emitted.is_empty());
}

#[test]
fn absent_profile_discards_the_contact_hint() {
    // Even a successful lookup is dropped when the profile is absent.
    let hint = LookupResponse {
        message: None,
        obfuscated_email: Some("j***e@example.com".to_string()),
        obfuscated_phone: Some("+1 *** ***34".to_string()),
    };
    assert!(process_candidate(None, &hint).is_none());
}

#[test]
fn obfuscated_hint_alone_can_set_the_email_flag() {
    let t = target();
    let p = profile("Someone Else", "", "");
    let hint = LookupResponse {
        message: None,
        obfuscated_email: Some("j*******e@example.com".to_string()),
        obfuscated_phone: None,
    };
    let result = process_candidate(Some(p), &hint).expect("profile resolved");
    let ev = evaluate_result(&result, &t.name, &t.email, &t.phone);
    assert!(!ev.name_matched);
    assert!(ev.email_matched);
    assert!(!ev.phone_matched);
    assert_eq!(tier_of(match_score(&ev)), MatchTier::Low);
}

#[test]
fn empty_public_fields_become_absent_details() {
    let p = profile("Jane Doe", "", "555 1234");
    let d = merge_details(&p, &empty_hint());
    assert!(d.public_email.is_none());
    assert_eq!(d.public_phone.as_deref(), Some("555 1234"));
    assert!(d.obfuscated_email.is_none());
    assert!(d.obfuscated_phone.is_none());
}

#[test]
fn strip_marker_removes_leading_markers_only() {
    assert_eq!(strip_marker("@jane_doe"), "jane_doe");
    assert_eq!(strip_marker("jane_doe"), "jane_doe");
    assert_eq!(strip_marker("@@jane@doe"), "jane@doe");
    assert_eq!(strip_marker(""), "");
}
