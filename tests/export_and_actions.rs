use envsecrets::actions::{
    assignment_lines, exit_result, export_file_text, listing_row, merge_exports, metadata_row,
    plan_exec,
};
use envsecrets::config::Config;
use envsecrets::error::Error;
use envsecrets::output::{quote_value, Exportable};
use envsecrets::records::{Parameter, ParameterMetadata, SecretListEntry, SecretValue};
use envsecrets::shell::{decimal, shell_config_text, Postgres};

fn s(x: &str) -> String {
    x.to_string()
}

#[test]
fn parameter_under_namespace_exports_sanitized_pair() {
    let config = Config::new("prod", "api");
    assert_eq!(config.as_path(), "/prod/api/");
    let params = vec![Parameter { name: Some(s("/prod/api/db-host")), value: Some(s("10.0.0.1")) }];
    assert!(params.values_present());
    assert_eq!(params.export(), Some(vec![(s("DB_HOST"), s("10.0.0.1"))]));
}

#[test]
fn parameters_export_one_pair_each_in_order() {
    let params = vec![
        Parameter { name: Some(s("/p/s/b-key")), value: Some(s("2")) },
        Parameter { name: Some(s("/p/s/a-key")), value: Some(s("1")) },
    ];
    assert_eq!(
        params.export(),
        Some(vec![(s("B_KEY"), s("2")), (s("A_KEY"), s("1"))])
    );
}

#[test]
fn parameter_without_value_is_reported() {
    let params = vec![Parameter { name: Some(s("/p/s/k")), value: None }];
    assert!(!params.values_present());
}

#[test]
fn metadata_exports_nothing() {
    let meta = vec![ParameterMetadata {
        name: Some(s("/p/s/k")),
        version: Some(3),
        last_modified_user: None,
        last_modified_date: Some(0),
    }];
    assert_eq!(meta.export(), None);
    let listed = vec![SecretListEntry {
        name: Some(s("/p/s//k")),
        arn: None,
        rotation_enabled: None,
        last_changed_date: None,
        deleted_date: None,
    }];
    assert_eq!(listed.export(), None);
    let empty: Vec<ParameterMetadata> = Vec::new();
    assert_eq!(empty.export(), None);
}

#[test]
fn secret_values_are_escaped_and_quoted() {
    let values = vec![SecretValue { name: Some(s("/p/s//db-pass")), secret_string: Some(s("a\"b\nc")) }];
    assert_eq!(values.export(), Some(vec![(s("DB_PASS"), s("\"a\\\"b\\nc\""))]));
    let missing = vec![SecretValue { name: Some(s("x")), secret_string: None }];
    assert!(!missing.values_present());
}

#[test]
fn quote_value_escapes_each_character() {
    assert_eq!(quote_value(""), "\"\"");
    assert_eq!(quote_value("plain"), "\"plain\"");
    assert_eq!(quote_value("tab\there"), "\"tab\\there\"");
    assert_eq!(quote_value("\u{e9}"), "\"\\u{e9}\"");
}

#[test]
fn decimal_writes_integers() {
    assert_eq!(decimal(0), "0");
    assert_eq!(decimal(5432), "5432");
    assert_eq!(decimal(-17), "-17");
    assert_eq!(decimal(i32::MIN), "-2147483648");
    assert_eq!(decimal(i32::MAX), "2147483647");
}

#[test]
fn postgres_settings_become_pg_environment() {
    let pg = Postgres {
        host: s("h"),
        port: 5432,
        dbname: s("d"),
        username: s("u"),
        password: s("p"),
        engine: s("postgres"),
        db_instance_identifier: s("i"),
    };
    assert_eq!(
        pg.env_pairs(),
        vec![
            (s("PGHOST"), s("h")),
            (s("PGPORT"), s("5432")),
            (s("PGDATABASE"), s("d")),
            (s("PGUSER"), s("u")),
            (s("PGPASSWORD"), s("p")),
        ]
    );
}

#[test]
fn failed_command_is_exec_error() {
    assert!(matches!(exit_result(false), Err(Error::ExecError)));
    assert!(exit_result(true).is_ok());
}

#[test]
fn shell_secret_without_value_is_invalid_key() {
    let config = Config::new("prod", "api");
    let secret = SecretValue { name: Some(s("/prod/api//db")), secret_string: None };
    match shell_config_text(&config, "db", secret) {
        Err(Error::InvalidKey(k)) => assert_eq!(k, "/prod/api/db"),
        other => panic!("unexpected {:?}", other),
    }
    let secret = SecretValue { name: Some(s("/prod/api//db")), secret_string: Some(s("{}")) };
    assert_eq!(shell_config_text(&config, "db", secret).ok(), Some(s("{}")));
}

#[test]
fn exec_without_pairs_gets_empty_environment() {
    let env = merge_exports(None, Some(Vec::new()));
    assert!(env.is_empty());
    let plan = plan_exec(vec![s("env")], env);
    assert_eq!(plan.program, "env");
    assert!(plan.args.is_empty());
    assert!(plan.env.is_empty());
}

#[test]
fn exec_plan_splits_command_and_keeps_pairs() {
    let env = merge_exports(Some(vec![(s("A"), s("1"))]), Some(vec![(s("B"), s("\"2\""))]));
    let plan = plan_exec(vec![s("run"), s("-x"), s("y")], env);
    assert_eq!(plan.program, "run");
    assert_eq!(plan.args, vec![s("-x"), s("y")]);
    assert_eq!(plan.env, vec![(s("A"), s("1")), (s("B"), s("\"2\""))]);
}

#[test]
fn output_lines_for_stdout_and_file() {
    let pairs = vec![(s("A"), s("1")), (s("B"), s("x y"))];
    assert_eq!(assignment_lines(&pairs), vec![s("A=1"), s("B=x y")]);
    assert_eq!(export_file_text(&pairs), "export A=1\nexport B=x y\n");
    assert_eq!(export_file_text(&Vec::new()), "");
}

#[test]
fn table_rows_show_keys_and_labels() {
    let meta = ParameterMetadata {
        name: Some(s("/p/s/key")),
        version: None,
        last_modified_user: Some(s("arn:aws:iam::1:user/alice")),
        last_modified_date: Some(0),
    };
    assert_eq!(metadata_row(&meta), (s("key"), 0, s("alice")));
    let listed = SecretListEntry {
        name: Some(s("/p/s//k")),
        arn: None,
        rotation_enabled: Some(false),
        last_changed_date: None,
        deleted_date: None,
    };
    assert_eq!(listing_row(&listed), (s("k"), s("lambda")));
    let listed = SecretListEntry { rotation_enabled: None, ..listed };
    assert_eq!(listing_row(&listed).1, "no rotation policy");
}
