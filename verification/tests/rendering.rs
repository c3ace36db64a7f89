use dust_log::u64_to_dec_string;
use dust_log::Timestamp;
use dust_log::sink::line_with_newline;
use dust_log::sink::log_file_path;
use dust_log::sink::log_file_path_for;
use dust_log::tags::LogDistinction;
use dust_log::tags::LogLevel;
use dust_log::tags::LogType;

#[test]
fn decimal_rendering_has_no_leading_zeros_or_separators() {
    assert_eq!(u64_to_dec_string(0), "0");
    assert_eq!(u64_to_dec_string(7), "7");
    assert_eq!(u64_to_dec_string(10), "10");
    assert_eq!(u64_to_dec_string(30), "30");
    assert_eq!(u64_to_dec_string(200), "200");
    assert_eq!(u64_to_dec_string(1234567890), "1234567890");
    assert_eq!(u64_to_dec_string(u64::MAX), "18446744073709551615");
}

#[test]
fn level_tokens_are_uppercase() {
    assert_eq!(LogLevel::INFO.as_log_str(), "INFO");
    assert_eq!(LogLevel::ERROR.as_log_str(), "ERROR");
}

#[test]
fn type_tokens_are_uppercase() {
    assert_eq!(LogType::REQUEST.as_log_str(), "REQUEST");
    assert_eq!(LogType::RESPONSE.as_log_str(), "RESPONSE");
}

#[test]
fn distinction_tokens_are_lowercase() {
    assert_eq!(LogDistinction::SERVER.as_log_str(), "server");
    assert_eq!(LogDistinction::DB.as_log_str(), "db");
}

#[test]
fn timestamp_renders_rfc3339_with_utc_offset() {
    let t = Timestamp::new(2014, 7, 8, 9, 10, 11).unwrap();
    assert_eq!(t.to_rfc3339(), "2014-07-08T09:10:11+00:00");
}

#[test]
fn timestamp_pads_every_component() {
    let t = Timestamp::new(987, 1, 2, 3, 4, 5).unwrap();
    assert_eq!(t.to_rfc3339(), "0987-01-02T03:04:05+00:00");
}

#[test]
fn timestamp_accepts_only_real_calendar_moments() {
    assert!(Timestamp::new(2016, 2, 29, 0, 0, 0).is_some());
    assert!(Timestamp::new(2015, 2, 29, 0, 0, 0).is_none());
    assert!(Timestamp::new(2000, 2, 29, 0, 0, 0).is_some());
    assert!(Timestamp::new(1900, 2, 29, 0, 0, 0).is_none());
    assert!(Timestamp::new(2014, 4, 31, 0, 0, 0).is_none());
    assert!(Timestamp::new(2014, 13, 1, 0, 0, 0).is_none());
    assert!(Timestamp::new(2014, 0, 1, 0, 0, 0).is_none());
    assert!(Timestamp::new(2014, 1, 0, 0, 0, 0).is_none());
    assert!(Timestamp::new(2014, 12, 31, 24, 0, 0).is_none());
    assert!(Timestamp::new(2014, 12, 31, 23, 60, 0).is_none());
    assert!(Timestamp::new(2014, 12, 31, 23, 59, 60).is_none());
    assert!(Timestamp::new(9999, 12, 31, 23, 59, 59).is_some());
    assert!(Timestamp::new(10000, 1, 1, 0, 0, 0).is_none());
}

#[test]
fn log_file_path_is_base_stem_extension() {
    assert_eq!(
        log_file_path("/var/log/dust", "server", "log"),
        "/var/log/dust/server.log"
    );
    assert_eq!(log_file_path("logs", "db", "txt"), "logs/db.txt");
}

#[test]
fn log_file_path_for_distinction_uses_its_lowercase_stem() {
    assert_eq!(
        log_file_path_for("/var/log/dust", &LogDistinction::SERVER, "log"),
        "/var/log/dust/server.log"
    );
    assert_eq!(
        log_file_path_for("/var/log/dust", &LogDistinction::DB, "log"),
        "/var/log/dust/db.log"
    );
}

#[test]
fn line_with_newline_appends_exactly_one_newline() {
    assert_eq!(line_with_newline("abc"), "abc\n");
    assert_eq!(line_with_newline(""), "\n");
}
