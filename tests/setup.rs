use nundb_exporter::command::{Command, Field};
use nundb_exporter::config::{resolve_setting, Config, ConfigError, EnvValue, Setting};
use nundb_exporter::request::Credentials;

#[test]
fn request_body_carries_credentials_and_command() {
    let c = Credentials { username: String::from("user"), password: String::from("pwd") };
    assert_eq!(c.request_body(Command::MetricsState), "auth user pwd;metrics-state");
    assert_eq!(c.request_body(Command::OplogState), "auth user pwd;oplog-state");
}

#[test]
fn commands_and_fields() {
    assert_eq!(Command::OplogState.expected_field_count(), 3);
    assert_eq!(Command::MetricsState.expected_field_count(), 5);
    assert_eq!(
        Command::MetricsState.fields(),
        vec![
            Field::PendingOps,
            Field::OpLogFileSize,
            Field::OpLogCount,
            Field::ReplicationTimeMovingAvg,
            Field::QueryTimeMovingAvg
        ]
    );
    assert_eq!(Command::OplogState.fields().len(), 3);
    assert_eq!(Field::OpLogCount.key(), "op_log_count");
    assert_eq!(Field::OpLogCount.gauge_name(), "nun_db_op_log_ops");
    assert_eq!(Field::QueryTimeMovingAvg.gauge_name(), "nun_db_query_time_moving_avg");
    assert!(!Field::PendingOps.help().is_empty());
}

#[test]
fn settings_resolve_or_name_what_is_missing() {
    assert_eq!(resolve_setting(Setting::User, EnvValue::Text(String::from("u"))), Ok(String::from("u")));
    assert_eq!(resolve_setting(Setting::Url, EnvValue::Absent), Err(ConfigError::Missing(Setting::Url)));
    assert_eq!(
        resolve_setting(Setting::Password, EnvValue::NotUnicode),
        Err(ConfigError::NotUnicode(Setting::Password))
    );
    assert_eq!(ConfigError::Missing(Setting::User).message(), "env NUN_USER is mandatory");
    assert_eq!(ConfigError::NotUnicode(Setting::Url).message(), "env NUN_URL is not valid unicode");
    assert_eq!(Setting::Password.env_name(), "NUN_PWD");
}

#[test]
fn config_reports_first_missing_setting() {
    let c = Config::from_values(
        EnvValue::Text(String::from("u")),
        EnvValue::Text(String::from("p")),
        EnvValue::Text(String::from("http://node:3013")),
    )
    .unwrap();
    assert_eq!(c.credentials.username, "u");
    assert_eq!(c.credentials.password, "p");
    assert_eq!(c.url, "http://node:3013");
    let e = Config::from_values(EnvValue::Text(String::from("u")), EnvValue::Absent, EnvValue::Absent)
        .unwrap_err();
    assert_eq!(e, ConfigError::Missing(Setting::Password));
}

#[test]
fn commands_by_token() {
    assert_eq!(Command::from_token("oplog-state"), Some(Command::OplogState));
    assert_eq!(Command::from_token("metrics-state"), Some(Command::MetricsState));
    assert_eq!(Command::from_token("metrics-stat"), None);
    assert_eq!(Command::from_token(""), None);
    assert_eq!(Command::MetricsState.token(), "metrics-state");
}
