use sentry_rust_minidump::channel::{
    channel_from_args, channel_name, is_alnum, new_channel_name, reporter_arg, sanitize_release,
    value_after_last_eq, CRASH_REPORTER_ARG,
};

fn in_alphabet(s: &str) -> bool {
    s.chars().all(|c| c.is_ascii_alphanumeric() || c == '-')
}

#[test]
fn sanitize_replaces_non_alphanumerics() {
    assert_eq!(sanitize_release("myapp-1.0"), "myapp-1-0");
    assert_eq!(sanitize_release("a b/c_d@2.3"), "a-b-c-d-2-3");
    assert_eq!(sanitize_release("Plain42"), "Plain42");
}

#[test]
fn sanitize_empty_release() {
    assert_eq!(sanitize_release(""), "");
}

#[test]
fn sanitize_non_ascii_letters() {
    assert_eq!(sanitize_release("café✓"), "caf--");
}

#[test]
fn is_alnum_matches_ascii_alphanumerics() {
    for c in ['a', 'z', 'A', 'Z', '0', '9'] {
        assert!(is_alnum(c));
    }
    for c in ['-', '.', ' ', 'é', '_', '/'] {
        assert!(!is_alnum(c));
    }
}

#[test]
fn channel_name_joins_release_and_token() {
    assert_eq!(channel_name("myapp-1.0", "abc"), "myapp-1-0-abc");
    assert_eq!(channel_name("", "t"), "-t");
}

#[test]
fn channel_name_without_suffix_is_deterministic() {
    assert_eq!(channel_name("my app 1.0", "x"), channel_name("my app 1.0", "x"));
    assert_eq!(sanitize_release("my app 1.0"), sanitize_release("my app 1.0"));
}

#[test]
fn new_channel_names_are_in_alphabet_and_distinct() {
    let a = new_channel_name("myapp 1.0/beta");
    let b = new_channel_name("myapp 1.0/beta");
    assert!(in_alphabet(&a));
    assert!(in_alphabet(&b));
    assert!(a.starts_with("myapp-1-0-beta-"));
    assert_eq!(a.chars().count(), "myapp-1-0-beta-".len() + 36);
    assert_ne!(a, b);
}

#[test]
fn reporter_arg_carries_the_name() {
    assert_eq!(reporter_arg("myapp-1-0-abc"), format!("{}=myapp-1-0-abc", CRASH_REPORTER_ARG));
}

#[test]
fn channel_read_back_from_arguments() {
    let name = new_channel_name("myapp-1.0");
    let args = vec!["/usr/bin/app".to_string(), "--verbose".to_string(), reporter_arg(&name)];
    assert_eq!(channel_from_args(&args), Some(name));
}

#[test]
fn channel_absent_from_arguments() {
    let args = vec!["/usr/bin/app".to_string(), "--crash".to_string()];
    assert_eq!(channel_from_args(&args), None);
    assert_eq!(channel_from_args(&Vec::new()), None);
}

#[test]
fn channel_from_first_flagged_argument() {
    let args = vec![
        format!("{}=first", CRASH_REPORTER_ARG),
        format!("{}=second", CRASH_REPORTER_ARG),
    ];
    assert_eq!(channel_from_args(&args), Some("first".to_string()));
}

#[test]
fn value_after_last_eq_cases() {
    assert_eq!(value_after_last_eq("a=b=c"), "c");
    assert_eq!(value_after_last_eq("abc"), "abc");
    assert_eq!(value_after_last_eq("abc="), "");
    assert_eq!(value_after_last_eq(""), "");
}
