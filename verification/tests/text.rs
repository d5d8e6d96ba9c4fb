use toy_container::text::{
    chars_of, decimal_string, followed_by, is_digit_char, join_path, join_strings,
    push_decimal, same_text, signed_decimal_string,
};

#[test]
fn decimals() {
    assert_eq!(decimal_string(0), "0");
    assert_eq!(decimal_string(7), "7");
    assert_eq!(decimal_string(10), "10");
    assert_eq!(decimal_string(100000), "100000");
    assert_eq!(decimal_string(u64::MAX), "18446744073709551615");
    for n in 0..2000u64 {
        assert_eq!(decimal_string(n), n.to_string());
    }
    let mut out = "pid ".to_string();
    push_decimal(&mut out, 4711);
    assert_eq!(out, "pid 4711");
}

#[test]
fn signed_decimals() {
    assert_eq!(signed_decimal_string(0), "0");
    assert_eq!(signed_decimal_string(-1), "-1");
    assert_eq!(signed_decimal_string(i64::MIN), "-9223372036854775808");
    assert_eq!(signed_decimal_string(i64::MAX), "9223372036854775807");
    for n in -300..300i64 {
        assert_eq!(signed_decimal_string(n), n.to_string());
    }
}

#[test]
fn digits() {
    for d in 0..10u64 {
        assert_eq!(decimal_string(d).len(), 1);
    }
    assert!(is_digit_char('0') && is_digit_char('9'));
    assert!(!is_digit_char('/') && !is_digit_char(':') && !is_digit_char('٣'));
}

#[test]
fn joining() {
    let parts = |v: &[&str]| v.iter().map(|s| s.to_string()).collect::<Vec<String>>();
    assert_eq!(join_strings(&parts(&[]), ":"), "");
    assert_eq!(join_strings(&parts(&["a"]), ":"), "a");
    assert_eq!(join_strings(&parts(&["a", "b", "c"]), ", "), "a, b, c");
    assert_eq!(join_strings(&parts(&["", ""]), ":"), ":");
    assert_eq!(followed_by("ab", "cd"), "abcd");
}

#[test]
fn paths() {
    assert_eq!(join_path("fs", "mount"), "fs/mount");
    assert_eq!(join_path("fs/", "mount"), "fs/mount");
    assert_eq!(join_path("", "mount"), "mount");
    assert_eq!(join_path("/", "proc"), "/proc");
    assert_eq!(join_path("fs", "/abs"), "/abs");
    assert_eq!(join_path("fs", ""), "fs/");
    assert_eq!(join_path("/sys/fs/cgroup/", "toy_container"), "/sys/fs/cgroup/toy_container");
    for (base, leaf) in [("fs", "mount"), ("fs/", "x"), ("", "y"), ("a/b", "/c"), ("é", "ü")] {
        let theirs = std::path::Path::new(base).join(leaf);
        assert_eq!(join_path(base, leaf), theirs.to_string_lossy());
    }
}

#[test]
fn characters() {
    assert_eq!(chars_of("aé٣"), vec!['a', 'é', '٣']);
    assert!(same_text("PATH", "PATH"));
    assert!(!same_text("PATH", "PATHS"));
    assert!(!same_text("PATH", "PATh"));
    assert!(same_text("", ""));
}
