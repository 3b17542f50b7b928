use envsecrets::config::Config;
use envsecrets::keys::{replace_dashes, sanitize_key, split_take_last};

#[test]
fn namespace_path_has_both_names() {
    let config = Config::new("prod", "api");
    assert_eq!(config.as_path(), "/prod/api/");
}

#[test]
fn namespace_path_with_empty_names() {
    let config = Config::new("", "");
    assert_eq!(config.as_path(), "///");
}

#[test]
fn split_take_last_of_absent_field_is_empty() {
    assert_eq!(split_take_last('/', None), "");
}

#[test]
fn split_take_last_takes_final_segment() {
    assert_eq!(split_take_last('/', Some("/prod/api/db-host".to_string())), "db-host");
    assert_eq!(split_take_last('/', Some("plain".to_string())), "plain");
    assert_eq!(split_take_last('/', Some("ends/".to_string())), "");
    assert_eq!(split_take_last(':', Some("arn:aws:iam::user".to_string())), "user");
}

#[test]
fn replace_dashes_turns_every_dash() {
    assert_eq!(replace_dashes("a-b--c"), "a_b__c");
    assert_eq!(replace_dashes(""), "");
}

#[test]
fn sanitize_key_upper_cases_last_segment() {
    assert_eq!(sanitize_key(Some("/prod/api/db-host".to_string())), "DB_HOST");
    assert_eq!(sanitize_key(Some("/prod/api/Mixed-Case-key".to_string())), "MIXED_CASE_KEY");
    assert_eq!(sanitize_key(None), "");
}

#[test]
fn sanitize_key_is_idempotent() {
    for k in ["/prod/api/db-host", "x-y/z-w", "already_OK", "", "a/b/"] {
        let once = sanitize_key(Some(k.to_string()));
        let twice = sanitize_key(Some(once.clone()));
        assert_eq!(once, twice);
    }
}
