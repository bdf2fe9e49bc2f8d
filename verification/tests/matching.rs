use blackbook::scoring::{
    check_email, check_name, check_phone, match_score, stop_search, tier_of, MatchEvidence,
    MatchTier,
};

#[test]
fn email_same_domain_same_edges_matches() {
    // Equal domains, equal first and last local-part characters.
    assert!(check_email("jdoe@example.com", "jane.doe@example.com"));
    assert!(check_email("f***t@domain.com", "flat@domain.com"));
}

#[test]
fn email_differing_domains_never_match() {
    assert!(!check_email("jdoe@example.org", "jane.doe@example.com"));
    assert!(!check_email("a@x.com", "a@y.com"));
}

#[test]
fn email_edge_characters_must_agree() {
    // First characters differ.
    assert!(!check_email("adoe@example.com", "jane.doe@example.com"));
    // Last characters differ.
    assert!(!check_email("jdot@example.com", "jane.doe@example.com"));
}

#[test]
fn email_requires_exactly_one_at() {
    assert!(!check_email("", "jane.doe@example.com"));
    assert!(!check_email("jdoe@example.com", ""));
    assert!(!check_email("no-at-sign.example.com", "jane.doe@example.com"));
    assert!(!check_email("j@doe@example.com", "jane@doe@example.com"));
}

#[test]
fn email_is_symmetric() {
    let pairs = [
        ("jdoe@example.com", "jane.doe@example.com"),
        ("jdoe@example.org", "jane.doe@example.com"),
        ("", "a@b.c"),
        ("x@y.z", "x@y.z"),
    ];
    for (a, b) in pairs {
        assert_eq!(check_email(a, b), check_email(b, a));
    }
}

#[test]
fn email_empty_locals_on_both_sides_match() {
    // Both local parts empty: their first and last characters agree vacuously.
    assert!(check_email("@example.com", "@example.com"));
    assert!(!check_email("@example.com", "a@example.com"));
}

#[test]
fn phone_first_token_and_last_two_characters() {
    assert!(check_phone("555 9934", "555 1234"));
    assert!(check_phone("555 1234", "555 1234"));
    assert!(!check_phone("556 9934", "555 1234"));
    assert!(!check_phone("555 9935", "555 1234"));
}

#[test]
fn phone_empty_inputs_never_match() {
    assert!(!check_phone("", "555 1234"));
    assert!(!check_phone("555 1234", ""));
    assert!(!check_phone("", ""));
}

#[test]
fn phone_all_whitespace_candidate_never_matches() {
    assert!(!check_phone("   ", "555 1234"));
}

#[test]
fn phone_target_without_token_falls_back_to_whole_string() {
    // An all-whitespace target is compared whole; a spaced candidate token
    // can never equal it.
    assert!(!check_phone("555 12", "   "));
    // Single tokens compare directly.
    assert!(check_phone("5551234", "5551234"));
}

#[test]
fn name_match_ignores_case() {
    assert!(check_name("Jane Doe", "jane doe"));
    assert!(check_name("JANE DOE", "jane doe"));
    assert!(!check_name("Jane Doe", "John Doe"));
}

#[test]
fn score_counts_matched_signals() {
    let ev = MatchEvidence { name_matched: true, email_matched: false, phone_matched: true };
    assert_eq!(match_score(&ev), 2);
    let all = MatchEvidence { name_matched: true, email_matched: true, phone_matched: true };
    assert_eq!(match_score(&all), 3);
    let none = MatchEvidence { name_matched: false, email_matched: false, phone_matched: false };
    assert_eq!(match_score(&none), 0);
}

#[test]
fn tier_follows_flag_count() {
    assert_eq!(tier_of(3), MatchTier::High);
    assert_eq!(tier_of(2), MatchTier::Medium);
    assert_eq!(tier_of(1), MatchTier::Low);
    assert_eq!(tier_of(0), MatchTier::Unranked);
}

#[test]
fn stop_search_exactly_on_three_flags() {
    assert!(stop_search(3));
    assert!(!stop_search(2));
    assert!(!stop_search(1));
    assert!(!stop_search(0));
}
