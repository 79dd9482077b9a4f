use adb_wireless::credential::{digits_text, random_number_string};
use adb_wireless::pair::PairService;

#[test]
fn random_number_string_has_requested_length_and_digits() {
    for n in [0usize, 1, 6, 8, 32] {
        let s = random_number_string(n);
        assert_eq!(s.chars().count(), n);
        assert!(s.chars().all(|c| c.is_ascii_digit()));
    }
}

#[test]
fn random_number_string_rarely_collides() {
    let mut seen = std::collections::HashSet::new();
    for _ in 0..200 {
        seen.insert(random_number_string(6));
    }
    assert!(seen.len() >= 190);
}

#[test]
fn new_session_has_fresh_credential() {
    let s = PairService::new();
    assert!(s.service_name.starts_with("adb-wireless-"));
    let suffix = &s.service_name["adb-wireless-".len()..];
    assert_eq!(suffix.len(), 6);
    assert!(suffix.chars().all(|c| c.is_ascii_digit()));
    assert_eq!(s.password.len(), 8);
    assert!(s.password.chars().all(|c| c.is_ascii_digit()));
    assert!(!s.registered);
    assert_eq!(s.browsing, None);
}

#[test]
fn digits_text_spells_each_digit() {
    assert_eq!(digits_text(&vec![0, 1, 2, 3, 4, 5, 6, 7, 8, 9]), "0123456789");
    assert_eq!(digits_text(&vec![9, 0, 0, 7]), "9007");
    assert_eq!(digits_text(&vec![]), "");
}

#[test]
fn random_number_string_uses_more_than_one_digit() {
    let s = random_number_string(64);
    let first = s.chars().next().unwrap();
    assert!(s.chars().any(|c| c != first));
}
