use burnin::cli::{eq_ignore_case, mode, parse_core, parse_usize};
use burnin::Mode;

#[test]
fn parse_usize_plain() {
    assert_eq!(parse_usize("12"), Some(12));
    assert_eq!(parse_usize("0"), Some(0));
    assert_eq!(parse_usize("007"), Some(7));
}

#[test]
fn parse_usize_plus_sign() {
    assert_eq!(parse_usize("+7"), Some(7));
    assert_eq!(parse_usize("+"), None);
}

#[test]
fn parse_usize_rejects_garbage() {
    assert_eq!(parse_usize(""), None);
    assert_eq!(parse_usize("x"), None);
    assert_eq!(parse_usize("1x"), None);
    assert_eq!(parse_usize("-1"), None);
    assert_eq!(parse_usize("1 "), None);
}

#[test]
fn parse_usize_bounds() {
    assert_eq!(parse_usize("18446744073709551615"), Some(usize::MAX));
    assert_eq!(parse_usize("18446744073709551616"), None);
    assert_eq!(parse_usize("99999999999999999999999"), None);
}

#[test]
fn parse_core_in_range() {
    assert_eq!(parse_core("1", 4), Ok(1));
    assert_eq!(parse_core("3", 4), Ok(3));
}

#[test]
fn parse_core_rejects_out_of_range() {
    let e = parse_core("4", 4).unwrap_err();
    assert_eq!(e, "zero-based core index 4 is greater than physical core count");
    let e = parse_core("7", 4).unwrap_err();
    assert_eq!(e, "zero-based core index 7 is greater than physical core count");
}

#[test]
fn parse_core_rejects_garbage() {
    let e = parse_core("abc", 4).unwrap_err();
    assert_eq!(e, "failed to parse core index");
}

#[test]
fn mode_accepts_keywords() {
    assert!(matches!(mode("seq"), Ok(Mode::Sequential)));
    assert!(matches!(mode("sequential"), Ok(Mode::Sequential)));
    assert!(matches!(mode("par"), Ok(Mode::Parallel)));
    assert!(matches!(mode("parallel"), Ok(Mode::Parallel)));
}

#[test]
fn mode_is_case_insensitive() {
    assert!(matches!(mode("SEQ"), Ok(Mode::Sequential)));
    assert!(matches!(mode("Sequential"), Ok(Mode::Sequential)));
    assert!(matches!(mode("PARALLEL"), Ok(Mode::Parallel)));
    assert!(matches!(mode("Par"), Ok(Mode::Parallel)));
}

#[test]
fn mode_rejects_other_tokens() {
    let e = mode("foo").unwrap_err();
    assert_eq!(e, "failed to parse mode: \"foo\"");
    assert!(mode("").is_err());
    assert!(mode("seque").is_err());
}

#[test]
fn mode_labels() {
    assert_eq!(Mode::Sequential.label(), "sequential");
    assert_eq!(Mode::Parallel.label(), "parallel");
}

#[test]
fn case_insensitive_comparison() {
    assert!(eq_ignore_case("AbC", "aBc"));
    assert!(!eq_ignore_case("abc", "abd"));
    assert!(!eq_ignore_case("ab", "abc"));
}
