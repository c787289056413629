use contest::fifo::Fifo;
use contest::text::{decimal_string, parse_u32, split_lines, str_eq, str_ieq};

#[test]
fn decimal_rendering() {
    assert_eq!(decimal_string(0), "0");
    assert_eq!(decimal_string(7), "7");
    assert_eq!(decimal_string(12), "12");
    assert_eq!(decimal_string(1040), "1040");
    assert_eq!(decimal_string(u64::MAX), "18446744073709551615");
}

#[test]
fn parse_decimal() {
    assert_eq!(parse_u32("0"), Some(0));
    assert_eq!(parse_u32("12"), Some(12));
    assert_eq!(parse_u32("4294967295"), Some(u32::MAX));
}

#[test]
fn parse_rejects_non_numbers() {
    assert_eq!(parse_u32(""), None);
    assert_eq!(parse_u32("12a"), None);
    assert_eq!(parse_u32("-3"), None);
    assert_eq!(parse_u32("4294967296"), None);
}

#[test]
fn split_lines_like_str_split() {
    let give = "a\nb\n";
    let have = split_lines(give);
    let want: Vec<String> = give.split('\n').map(|s| s.to_string()).collect();
    assert_eq!(have, want);
    assert_eq!(split_lines(""), vec!["".to_string()]);
    assert_eq!(split_lines("one"), vec!["one".to_string()]);
}

#[test]
fn string_comparisons() {
    assert!(str_eq("abc", "abc"));
    assert!(!str_eq("abc", "abd"));
    assert!(str_ieq("Test-All", "test-all"));
    assert!(!str_ieq("test-all", "test-al"));
}

#[test]
fn fifo_path() {
    let fifo = Fifo::in_dir("/tmp/project");
    assert_eq!(fifo.path_str(), "/tmp/project/.contest.tmp");
    assert_eq!(fifo.filepath, "/tmp/project/.contest.tmp");
}
