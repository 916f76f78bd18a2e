use podman_cri::strutil::find_char;
use podman_cri::strutil::i64_to_string;
use podman_cri::strutil::split_first;
use podman_cri::strutil::str_eq;
use podman_cri::strutil::str_starts_with;
use podman_cri::strutil::u64_to_string;

#[test]
fn prints_small_numbers() {
    assert_eq!(u64_to_string(0), "0");
    assert_eq!(u64_to_string(7), "7");
    assert_eq!(u64_to_string(10), "10");
    assert_eq!(u64_to_string(42), "42");
}

#[test]
fn prints_large_numbers() {
    assert_eq!(u64_to_string(1234567890), "1234567890");
    assert_eq!(u64_to_string(u64::MAX), "18446744073709551615");
}

#[test]
fn prints_signed_numbers() {
    assert_eq!(i64_to_string(0), "0");
    assert_eq!(i64_to_string(1700000000123456789), "1700000000123456789");
    assert_eq!(i64_to_string(-5), "-5");
    assert_eq!(i64_to_string(i64::MIN), "-9223372036854775808");
    assert_eq!(i64_to_string(i64::MAX), "9223372036854775807");
}

#[test]
fn finds_first_occurrence() {
    assert_eq!(find_char("a=b=c", '='), Some(1));
    assert_eq!(find_char("abc", '='), None);
    assert_eq!(find_char("=x", '='), Some(0));
    assert_eq!(find_char("", '='), None);
}

#[test]
fn splits_at_first_occurrence() {
    let (k, v) = split_first("a=b=c", '=').unwrap();
    assert_eq!(k, "a");
    assert_eq!(v, "b=c");
    assert!(split_first("abc", '=').is_none());
    let (k, v) = split_first("x=", '=').unwrap();
    assert_eq!(k, "x");
    assert_eq!(v, "");
}

#[test]
fn compares_strings() {
    assert!(str_eq("containers", "containers"));
    assert!(!str_eq("containers", "container"));
    assert!(!str_eq("pods", "json"));
    assert!(str_eq("", ""));
}

#[test]
fn tests_prefixes() {
    assert!(str_starts_with("sha256", "sha"));
    assert!(str_starts_with("sha", "sha"));
    assert!(!str_starts_with("sh", "sha"));
    assert!(!str_starts_with("myimage", "sha"));
    assert!(str_starts_with("anything", ""));
}
