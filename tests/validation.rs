use kwimy::validation::{is_utc_variant, is_wifi_auth_error, valid_hostname, valid_username};

#[test]
fn username_rejects_superuser() {
    assert!(!valid_username("root"));
}

#[test]
fn username_rejects_bad_first_char() {
    assert!(!valid_username(""));
    assert!(!valid_username("1user"));
    assert!(!valid_username("User"));
    assert!(!valid_username("_user"));
    assert!(!valid_username("-user"));
}

#[test]
fn username_accepts_allowed_tail() {
    assert!(valid_username("kevin"));
    assert!(valid_username("a"));
    assert!(valid_username("a0_-z9"));
    assert!(valid_username("rooter"));
}

#[test]
fn username_rejects_other_tail_chars() {
    assert!(!valid_username("kev in"));
    assert!(!valid_username("kevIn"));
    assert!(!valid_username("kev.in"));
    assert!(!valid_username("kevé"));
}

#[test]
fn hostname_length_bounds() {
    assert!(!valid_hostname(""));
    assert!(valid_hostname("a"));
    assert!(valid_hostname(&"a".repeat(63)));
    assert!(!valid_hostname(&"a".repeat(64)));
}

#[test]
fn hostname_characters() {
    assert!(valid_hostname("my-Host-01"));
    assert!(!valid_hostname("my_host"));
    assert!(!valid_hostname("my.host"));
    assert!(!valid_hostname("hôte"));
}

#[test]
fn utc_variants() {
    for tz in ["UTC", "Etc/UTC", "Etc/GMT", "GMT"] {
        assert!(is_utc_variant(tz));
    }
    assert!(!is_utc_variant("Europe/Paris"));
    assert!(!is_utc_variant("utc"));
    assert!(!is_utc_variant(""));
}

#[test]
fn wifi_auth_errors_are_classified() {
    assert!(is_wifi_auth_error("Secrets were required, but not provided"));
    assert!(is_wifi_auth_error("802.1X AUTH failed"));
    assert!(is_wifi_auth_error("Wrong PASSWORD"));
    assert!(is_wifi_auth_error("Access Denied by peer"));
    assert!(!is_wifi_auth_error("Timeout was reached"));
    assert!(!is_wifi_auth_error(""));
}
