use qq_gateway::credentials::{parse_expires_in, CredentialCache};

#[test]
fn lifetime_plain_number() {
    assert_eq!(parse_expires_in("7200"), 7200);
    assert_eq!(parse_expires_in("1"), 1);
    assert_eq!(parse_expires_in("0"), 0);
}

#[test]
fn lifetime_leading_plus_and_zeros() {
    assert_eq!(parse_expires_in("+15"), 15);
    assert_eq!(parse_expires_in("0060"), 60);
    assert_eq!(parse_expires_in("+0"), 0);
}

#[test]
fn lifetime_defaults_on_malformed() {
    assert_eq!(parse_expires_in(""), 7200);
    assert_eq!(parse_expires_in("abc"), 7200);
    assert_eq!(parse_expires_in("12x"), 7200);
    assert_eq!(parse_expires_in(" 12"), 7200);
    assert_eq!(parse_expires_in("-5"), 7200);
    assert_eq!(parse_expires_in("+"), 7200);
    assert_eq!(parse_expires_in("1.5"), 7200);
}

#[test]
fn lifetime_at_the_64_bit_edge() {
    assert_eq!(parse_expires_in("18446744073709551615"), u64::MAX);
    assert_eq!(parse_expires_in("18446744073709551616"), 7200);
    assert_eq!(parse_expires_in("99999999999999999999999999"), 7200);
}

#[test]
fn cold_cache_has_nothing() {
    let c = CredentialCache::new();
    assert_eq!(c.lookup(0), None);
    assert_eq!(c.lookup(12345), None);
}

#[test]
fn validity_window_is_exact() {
    // Fetched at T = 1000 with expires_in = 7200: valid until exactly
    // T + 7200 - 60 = 8140, invalid at and after that instant.
    let mut c = CredentialCache::new();
    c.store(1000, String::from("tok"), 7200);
    assert_eq!(c.lookup(1000), Some(String::from("tok")));
    assert_eq!(c.lookup(8139), Some(String::from("tok")));
    assert_eq!(c.lookup(8140), None);
    assert_eq!(c.lookup(9000), None);
}

#[test]
fn minimal_lifetime_expires_immediately() {
    let mut c = CredentialCache::new();
    c.store(500, String::from("t"), 60);
    assert_eq!(c.lookup(499), Some(String::from("t")));
    assert_eq!(c.lookup(500), None);
}

#[test]
fn refresh_replaces_the_slot() {
    let mut c = CredentialCache::new();
    c.store(1000, String::from("first"), 7200);
    c.store(9000, String::from("second"), 7200);
    assert_eq!(c.lookup(9001), Some(String::from("second")));
    assert_eq!(c.lookup(16139), Some(String::from("second")));
    assert_eq!(c.lookup(16140), None);
}

#[test]
fn all_callers_in_window_see_one_token() {
    // Once one refresh has stored the credential, every re-check inside
    // the window returns that same token, so no caller fetches again.
    let mut c = CredentialCache::new();
    c.store(1000, String::from("shared"), 7200);
    for now in [1000u64, 2000, 4000, 8000, 8139] {
        assert_eq!(c.lookup(now), Some(String::from("shared")));
    }
}
