use nundb_exporter::command::Command;
use nundb_exporter::metrics::ParsedMetrics;
use nundb_exporter::parser::{parse_response, ParseFailure};
use nundb_exporter::text::{field_value, is_decimal_text};

const ANSWER: &str = ";oplog-state pending_ops: 182, op_log_file_size: 9769300, op_log_count: 390772,replication_time_moving_avg: 1.8110653344759675, get_query_time_moving_avg: 0.00007003404479057364";

fn to_finite(v: &String) -> Option<f64> {
    v.parse::<f64>().ok().filter(|x| x.is_finite())
}

fn parse_floats(raw: &str, command: Command) -> Result<Vec<f64>, ParseFailure> {
    let texts = parse_response(raw, command).map_err(|e| e.kind)?;
    let converted = texts.iter().map(to_finite).collect();
    ParsedMetrics::from_converted(command, raw, converted)
        .map(|p| p.values)
        .map_err(|e| e.kind)
}

#[test]
fn get_connection_count() {
    let values = parse_floats(&String::from(ANSWER), Command::MetricsState).unwrap();
    let pending_ops = values[0];
    let op_log_file_size = values[1];
    let op_log_count = values[2];
    let replication_time_moving_avg = values[3];
    let get_query_time_moving_avg = values[4];
    assert_eq!(pending_ops, 182.0);
    assert_eq!(op_log_count, 390772.0);
    assert_eq!(op_log_file_size, 9769300.0);
    assert_eq!(replication_time_moving_avg, 1.8110653344759675);
    assert_eq!(get_query_time_moving_avg, 0.00007003404479057364);
}

#[test]
fn parses_the_example_answer_exactly() {
    let values = parse_floats(ANSWER, Command::MetricsState).unwrap();
    assert_eq!(values, vec![182.0, 9769300.0, 390772.0, 1.8110653344759675, 0.00007003404479057364]);
}

#[test]
fn value_texts_of_the_example_answer() {
    let texts = parse_response(ANSWER, Command::MetricsState).unwrap();
    assert_eq!(
        texts,
        vec!["182", "9769300", "390772", "1.8110653344759675", "0.00007003404479057364"]
    );
}

#[test]
fn parsing_twice_gives_the_same_values() {
    let first = parse_floats(ANSWER, Command::MetricsState).unwrap();
    let second = parse_floats(ANSWER, Command::MetricsState).unwrap();
    assert_eq!(first, second);
    let bad = "x;metrics-state pending_ops: 1";
    assert_eq!(parse_floats(bad, Command::MetricsState), parse_floats(bad, Command::MetricsState));
}

#[test]
fn one_field_removed_is_refused() {
    let raw = ";oplog-state pending_ops: 182, op_log_file_size: 9769300, op_log_count: 390772,replication_time_moving_avg: 1.8110653344759675";
    let err = parse_response(raw, Command::MetricsState).unwrap_err();
    assert_eq!(err.kind, ParseFailure::TooFewFields);
    assert_eq!(err.raw, raw);
}

#[test]
fn legacy_command_takes_three_fields() {
    let values = parse_floats(ANSWER, Command::OplogState).unwrap();
    assert_eq!(values, vec![182.0, 9769300.0, 390772.0]);
    let raw = ";oplog-state pending_ops: 1, op_log_file_size: 2, op_log_count: 3";
    assert_eq!(parse_floats(raw, Command::OplogState).unwrap(), vec![1.0, 2.0, 3.0]);
    assert_eq!(parse_floats(raw, Command::MetricsState), Err(ParseFailure::TooFewFields));
}

#[test]
fn non_numeric_value_is_refused() {
    let raw = ";oplog-state pending_ops: abc, op_log_file_size: 9769300, op_log_count: 390772,replication_time_moving_avg: 1.8, get_query_time_moving_avg: 0.1";
    let err = parse_response(raw, Command::MetricsState).unwrap_err();
    assert_eq!(err.kind, ParseFailure::NotANumber(0));
    let raw = ";oplog-state pending_ops: 1, op_log_file_size: 2, op_log_count: 3,replication_time_moving_avg: 1.8, get_query_time_moving_avg: abc";
    assert_eq!(parse_floats(raw, Command::MetricsState), Err(ParseFailure::NotANumber(4)));
}

#[test]
fn missing_separator_is_refused() {
    let raw = "oplog-state pending_ops: 182";
    let err = parse_response(raw, Command::OplogState).unwrap_err();
    assert_eq!(err.kind, ParseFailure::MissingSeparator);
    assert_eq!(err.raw, raw);
    assert_eq!(parse_floats("", Command::OplogState), Err(ParseFailure::MissingSeparator));
}

#[test]
fn missing_field_list_is_refused() {
    assert_eq!(
        parse_floats("preamble;metrics-state", Command::MetricsState),
        Err(ParseFailure::MissingFieldList)
    );
}

#[test]
fn field_without_value_is_refused() {
    let raw = ";oplog-state pending_ops: 1, op_log_file_size:2, op_log_count: 3";
    assert_eq!(parse_floats(raw, Command::OplogState), Err(ParseFailure::MalformedField(1)));
}

#[test]
fn empty_value_is_not_a_number() {
    let raw = ";oplog-state pending_ops:  1, op_log_file_size: 2, op_log_count: 3";
    assert_eq!(parse_floats(raw, Command::OplogState), Err(ParseFailure::NotANumber(0)));
}

#[test]
fn overflowing_value_is_not_finite() {
    let raw = ";oplog-state pending_ops: 1, op_log_file_size: 1e400, op_log_count: 3";
    assert_eq!(parse_floats(raw, Command::OplogState), Err(ParseFailure::NotFinite(1)));
}

#[test]
fn preamble_and_trailing_text_are_ignored() {
    let raw = "welcome\n;oplog-state pending_ops: 7 ms,\top_log_file_size: -2.5e3\n, op_log_count: +4.\n";
    assert_eq!(parse_floats(raw, Command::OplogState).unwrap(), vec![7.0, -2500.0, 4.0]);
}

#[test]
fn keys_are_not_looked_at() {
    let raw = ";x a: 1, b: 2, c: 3";
    assert_eq!(parse_floats(raw, Command::OplogState).unwrap(), vec![1.0, 2.0, 3.0]);
}

#[test]
fn decimal_literals() {
    for ok in ["0", "182", ".5", "5.", "-1.5E-3", "+2e+10", "1e5", "00.00"] {
        assert!(is_decimal_text(ok), "{}", ok);
    }
    for bad in ["", ".", "-", "e5", "1e", "1e+", "inf", "NaN", "1.2.3", "abc", "1 2", "1,5", "--1"] {
        assert!(!is_decimal_text(bad), "{}", bad);
    }
}

#[test]
fn field_value_takes_the_token_after_the_key() {
    assert_eq!(field_value("  pending_ops: 182 "), Some(String::from("182")));
    assert_eq!(field_value("pending_ops: 182 extra"), Some(String::from("182")));
    assert_eq!(field_value("pending_ops:182"), None);
    assert_eq!(field_value("   "), None);
}

#[test]
fn unicode_whitespace_around_a_field_is_trimmed() {
    assert_eq!(field_value("pending_ops: 182\u{A0}"), Some(String::from("182")));
    assert_eq!(field_value("\u{A0} pending_ops: 182"), Some(String::from("182")));
    assert_eq!(field_value("\u{3000}\u{2028}pending_ops: 7\u{85}\u{202F}"), Some(String::from("7")));
    let raw = ";oplog-state\u{A0} pending_ops: 1\u{A0},\u{A0} op_log_file_size: 2, op_log_count: 3\u{2009}";
    assert_eq!(parse_floats(raw, Command::OplogState).unwrap(), vec![1.0, 2.0, 3.0]);
}
