use spending_limits::secret::Secret;
use spending_limits::text::{i64_text, joined, same_text, trim_end_slashes, u64_text};

#[test]
fn numbers_are_written_in_full() {
    assert_eq!(u64_text(0), "0");
    assert_eq!(u64_text(10_203), "10203");
    assert_eq!(u64_text(u64::MAX), "18446744073709551615");
    assert_eq!(i64_text(-7), "-7");
    assert_eq!(i64_text(i64::MIN), "-9223372036854775808");
    assert_eq!(i64_text(i64::MAX), "9223372036854775807");
}

#[test]
fn texts_are_joined_compared_and_trimmed() {
    assert_eq!(joined("a", "b\u{e9}"), "ab\u{e9}");
    assert!(same_text("usd", "usd"));
    assert!(!same_text("usd", "USD"));
    assert!(!same_text("", "U"));
    assert_eq!(trim_end_slashes("a/b//"), "a/b");
    assert_eq!(trim_end_slashes("//"), "");
    assert_eq!(trim_end_slashes(""), "");
}

#[test]
fn secrets_are_read_by_peeking() {
    let secret = Secret::new("s3".to_string());
    assert_eq!(secret.peek(), "s3");
    assert!(!secret.is_empty());
    assert_eq!(secret.clone().peek(), "s3");
    assert!(Secret::new(String::new()).is_empty());
}
