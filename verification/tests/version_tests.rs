use seed_backend::version::{
    interpret_version_probe, is_python_311_or_higher, meets_minimum, parse_python_version,
    parse_u32_str, version_query_arg,
};

#[test]
fn parses_plain_release() {
    let info = parse_python_version("Python 3.11.5", "/usr/bin/python3").unwrap();
    assert_eq!(info.major, 3);
    assert_eq!(info.minor, 11);
    assert_eq!(info.patch, 5);
    assert_eq!(info.version, "3.11.5");
    assert_eq!(info.path, "/usr/bin/python3");
}

#[test]
fn parses_release_candidate_patch_digits_only() {
    let info = parse_python_version("Python 3.12.0rc1", "py").unwrap();
    assert_eq!(info.major, 3);
    assert_eq!(info.minor, 12);
    assert_eq!(info.patch, 0);
    assert_eq!(info.version, "3.12.0rc1");
}

#[test]
fn rejects_missing_prefix() {
    assert!(parse_python_version("3.11.5", "p").is_none());
}

#[test]
fn rejects_single_component() {
    assert!(parse_python_version("Python 3", "p").is_none());
}

#[test]
fn trims_surrounding_whitespace() {
    let info = parse_python_version("  Python 3.11.2\r\n", "p").unwrap();
    assert_eq!(info.major, 3);
    assert_eq!(info.minor, 11);
    assert_eq!(info.patch, 2);
}

#[test]
fn missing_patch_defaults_to_zero() {
    let info = parse_python_version("Python 3.11", "p").unwrap();
    assert_eq!(info.patch, 0);
}

#[test]
fn non_numeric_major_rejected() {
    assert!(parse_python_version("Python x.11", "p").is_none());
}

#[test]
fn minor_overflow_rejected() {
    assert!(parse_python_version("Python 3.4294967296", "p").is_none());
}

#[test]
fn patch_overflow_falls_back_to_zero() {
    let info = parse_python_version("Python 3.11.99999999999", "p").unwrap();
    assert_eq!(info.patch, 0);
}

#[test]
fn non_numeric_patch_falls_back_to_zero() {
    let info = parse_python_version("Python 3.11.rc", "p").unwrap();
    assert_eq!(info.patch, 0);
}

#[test]
fn empty_input_rejected() {
    assert!(parse_python_version("", "p").is_none());
    assert!(parse_python_version("   ", "p").is_none());
}

#[test]
fn version_floor_is_three_eleven() {
    assert!(is_python_311_or_higher("Python 3.11.0"));
    assert!(is_python_311_or_higher("Python 3.13.1"));
    assert!(!is_python_311_or_higher("Python 3.10.4"));
    assert!(!is_python_311_or_higher("Python 2.7.18"));
    assert!(!is_python_311_or_higher("Python 4.0.0"));
    assert!(!is_python_311_or_higher("not a version"));
    assert!(meets_minimum(3, 11));
    assert!(!meets_minimum(3, 10));
    assert!(!meets_minimum(4, 0));
}

#[test]
fn parse_u32_accepts_digits_only() {
    assert_eq!(parse_u32_str("0"), Some(0));
    assert_eq!(parse_u32_str("007"), Some(7));
    assert_eq!(parse_u32_str("4294967295"), Some(u32::MAX));
    assert_eq!(parse_u32_str("4294967296"), None);
    assert_eq!(parse_u32_str(""), None);
    assert_eq!(parse_u32_str("12a"), None);
    assert_eq!(parse_u32_str("-1"), None);
}

#[test]
fn version_query_flag() {
    assert_eq!(version_query_arg(), "--version");
}

#[test]
fn probe_reads_stdout_first() {
    let info = interpret_version_probe(true, "Python 3.11.5\n", "", "/p").unwrap();
    assert_eq!(info.minor, 11);
    assert_eq!(info.path, "/p");
}

#[test]
fn probe_falls_back_to_stderr() {
    let info = interpret_version_probe(true, "", "Python 3.12.1\n", "/p").unwrap();
    assert_eq!(info.minor, 12);
}

#[test]
fn probe_ignores_failed_invocation() {
    assert!(interpret_version_probe(false, "Python 3.11.5\n", "", "/p").is_none());
}

#[test]
fn probe_needs_the_python_word() {
    assert!(interpret_version_probe(true, "3.11.5", "no version here", "/p").is_none());
}
