use envsecrets::config::Config;
use envsecrets::error::Error;
use envsecrets::paging::{Page, Pager};
use envsecrets::records::SecretListEntry;
use envsecrets::secrets::{find_secret_arn, live_secrets, secret_arns};

fn page(records: Vec<u32>, token: Option<&str>) -> Page<u32> {
    Page { records, next_token: token.map(|t| t.to_string()) }
}

#[test]
fn pager_collects_every_page_and_stops_without_token() {
    let mut pager: Pager<u32> = Pager::new();
    assert_eq!(pager.request_token(), None);
    assert!(pager.absorb(page(vec![1, 2], Some("t1"))));
    assert_eq!(pager.request_token(), Some("t1".to_string()));
    assert!(pager.absorb(page(vec![3], Some("t2"))));
    assert_eq!(pager.request_token(), Some("t2".to_string()));
    assert!(!pager.absorb(page(vec![], None)));
    assert!(pager.is_done());
    assert_eq!(pager.into_records(), vec![1, 2, 3]);
}

#[test]
fn pager_single_page() {
    let mut pager: Pager<u32> = Pager::new();
    assert!(!pager.absorb(page(vec![7, 8, 9], None)));
    assert!(pager.is_done());
    assert_eq!(pager.into_records().len(), 3);
}

fn entry(name: Option<&str>, arn: Option<&str>, deleted: Option<i64>) -> SecretListEntry {
    SecretListEntry {
        name: name.map(|n| n.to_string()),
        arn: arn.map(|a| a.to_string()),
        rotation_enabled: None,
        last_changed_date: Some(0),
        deleted_date: deleted,
    }
}

#[test]
fn live_secrets_drops_deleted_and_foreign_entries() {
    let config = Config::new("prod", "api");
    let entries = vec![
        entry(Some("/prod/api//db"), Some("arn1"), None),
        entry(Some("/prod/api//old"), Some("arn2"), Some(1000)),
        entry(Some("/prod/web//db"), Some("arn3"), None),
        entry(None, Some("arn4"), None),
        entry(Some("/prod/api//cache"), Some("arn5"), None),
    ];
    let kept = live_secrets(&entries, &config);
    let names: Vec<Option<String>> = kept.iter().map(|e| e.name.clone()).collect();
    assert_eq!(
        names,
        vec![Some("/prod/api//db".to_string()), Some("/prod/api//cache".to_string())]
    );
}

#[test]
fn live_secrets_of_nothing_is_nothing() {
    let config = Config::new("prod", "api");
    assert!(live_secrets(&Vec::new(), &config).is_empty());
}

#[test]
fn missing_secret_is_invalid_key_with_full_path() {
    let config = Config::new("prod", "api");
    let entries = vec![entry(Some("/prod/api//other"), Some("arn1"), None)];
    match find_secret_arn(&entries, &config, "missing") {
        Err(Error::InvalidKey(k)) => assert_eq!(k, "/prod/api//missing"),
        other => panic!("unexpected {:?}", other),
    }
}

#[test]
fn found_secret_gives_first_arn() {
    let config = Config::new("prod", "api");
    let entries = vec![
        entry(Some("/prod/api//other"), Some("arn0"), None),
        entry(Some("/prod/api//db"), Some("arn1"), None),
        entry(Some("/prod/api//db"), Some("arn2"), None),
    ];
    match find_secret_arn(&entries, &config, "db") {
        Ok(a) => assert_eq!(a, "arn1"),
        other => panic!("unexpected {:?}", other),
    }
}

#[test]
fn found_secret_without_arn_is_missing_field() {
    let config = Config::new("prod", "api");
    let entries = vec![entry(Some("/prod/api//db"), None, None)];
    match find_secret_arn(&entries, &config, "db") {
        Err(Error::MissingField(m)) => assert_eq!(m, "/prod/api//db"),
        other => panic!("unexpected {:?}", other),
    }
}

#[test]
fn secret_arns_in_order() {
    let entries = vec![entry(Some("a"), Some("arn-a"), None), entry(Some("b"), Some("arn-b"), None)];
    match secret_arns(&entries) {
        Ok(v) => assert_eq!(v, vec!["arn-a".to_string(), "arn-b".to_string()]),
        other => panic!("unexpected {:?}", other),
    }
}

#[test]
fn secret_arns_reports_entry_without_arn() {
    let entries = vec![entry(Some("a"), Some("arn-a"), None), entry(Some("b"), None, None)];
    match secret_arns(&entries) {
        Err(Error::MissingField(m)) => assert_eq!(m, "b"),
        other => panic!("unexpected {:?}", other),
    }
}
