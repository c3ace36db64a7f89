use dust_log::DBRequestLog;
use dust_log::DBResponseLog;
use dust_log::HTTPRequestLog;
use dust_log::HTTPResponseLog;
use dust_log::LogLevel;
use dust_log::Timestamp;

#[test]
fn test_http_request_log_as_log_str() {
    let log = HTTPRequestLog {
        timestamp: Timestamp::new(2014, 7, 8, 9, 10, 11).unwrap(),
        log_level: LogLevel::INFO,
        originating_ip_addr: "35.111.95.142".to_owned(),
        api: "/api/v1/health_check".to_owned(),
        restful_method: "GET".to_owned(),
        payload_size_in_bytes: Some(30),
        body_as_utf8_str: Some("{\"json_key\": \"json_value_str\"}".to_owned()),
    };

    assert_eq!(
        log.as_log_str(),
        "[2014-07-08T09:10:11+00:00] [INFO] [REQUEST] [35.111.95.142] [/api/v1/health_check] [GET] [30B] [{\"json_key\": \"json_value_str\"}]"
    );

    assert_eq!(log.get_log_distinction(), "server");
}

#[test]
fn test_http_response_log_as_log_str() {
    let log = HTTPResponseLog {
        timestamp: Timestamp::new(2014, 7, 8, 9, 10, 11).unwrap(),
        log_level: LogLevel::INFO,
        originating_ip_addr: "127.0.0.1".to_owned(),
        response_status_code: 200,
        body_as_utf8_str: None,
    };

    assert_eq!(
        log.as_log_str(),
        "[2014-07-08T09:10:11+00:00] [INFO] [RESPONSE] [127.0.0.1] [200] []"
    );

    assert_eq!(log.get_log_distinction(), "server");
}

#[test]
fn test_db_request_log_as_log_str() {
    let log = DBRequestLog {
        timestamp: Timestamp::new(2014, 7, 8, 9, 10, 11).unwrap(),
        log_level: LogLevel::INFO,
        socket_addr: "127.0.0.1:44089".to_owned(),
        command: "CREATE users 7A".to_owned(),
        pile: None,
        payload_size_in_bytes: Some(30),
    };

    assert_eq!(
        log.as_log_str(),
        "[2014-07-08T09:10:11+00:00] [INFO] [REQUEST] [127.0.0.1:44089] [CREATE users 7A] [] [30B]"
    );

    assert_eq!(log.get_log_distinction(), "db");
}

#[test]
fn test_db_response_log_as_log_str() {
    let log = DBResponseLog {
        timestamp: Timestamp::new(2014, 7, 8, 9, 10, 11).unwrap(),
        log_level: LogLevel::INFO,
        exit_code: 0,
        message: None,
    };

    let log_2 = DBResponseLog {
        timestamp: Timestamp::new(2014, 7, 8, 9, 10, 11).unwrap(),
        log_level: LogLevel::ERROR,
        exit_code: 1,
        message: Some("Error creating db entry!".to_owned()),
    };

    assert_eq!(
        log.as_log_str(),
        "[2014-07-08T09:10:11+00:00] [INFO] [RESPONSE] [0] []"
    );

    assert_eq!(
        log_2.as_log_str(),
        "[2014-07-08T09:10:11+00:00] [ERROR] [RESPONSE] [1] [Error creating db entry!]"
    );

    assert_eq!(log.get_log_distinction(), "db");
    assert_eq!(log_2.get_log_distinction(), "db");
}

#[test]
fn serialization_is_deterministic() {
    let make = || HTTPRequestLog {
        timestamp: Timestamp::new(2014, 7, 8, 9, 10, 11).unwrap(),
        log_level: LogLevel::INFO,
        originating_ip_addr: "35.111.95.142".to_owned(),
        api: "/api/v1/health_check".to_owned(),
        restful_method: "GET".to_owned(),
        payload_size_in_bytes: Some(30),
        body_as_utf8_str: Some("{\"json_key\": \"json_value_str\"}".to_owned()),
    };
    let a = make();
    let b = make();
    assert_eq!(a.as_log_str(), b.as_log_str());
    assert_eq!(a.as_log_str(), a.as_log_str());

    let db = DBResponseLog {
        timestamp: Timestamp::new(2020, 1, 2, 3, 4, 5).unwrap(),
        log_level: LogLevel::ERROR,
        exit_code: 7,
        message: Some("boom".to_owned()),
    };
    assert_eq!(db.as_log_str(), db.as_log_str());
}

#[test]
fn db_request_log_with_pile_name() {
    let log = DBRequestLog {
        timestamp: Timestamp::new(2014, 7, 8, 9, 10, 11).unwrap(),
        log_level: LogLevel::INFO,
        socket_addr: "127.0.0.1:44089".to_owned(),
        command: "CREATE".to_owned(),
        pile: Some("users".to_owned()),
        payload_size_in_bytes: Some(30),
    };

    assert_eq!(
        log.as_log_str(),
        "[2014-07-08T09:10:11+00:00] [INFO] [REQUEST] [127.0.0.1:44089] [CREATE] [users] [30B]"
    );
}

#[test]
fn field_order_is_fixed_when_options_are_absent() {
    let all_absent = HTTPRequestLog {
        timestamp: Timestamp::new(1999, 12, 31, 23, 59, 59).unwrap(),
        log_level: LogLevel::ERROR,
        originating_ip_addr: "10.0.0.1".to_owned(),
        api: "/api/v1/piles".to_owned(),
        restful_method: "POST".to_owned(),
        payload_size_in_bytes: None,
        body_as_utf8_str: None,
    };

    assert_eq!(
        all_absent.as_log_str(),
        "[1999-12-31T23:59:59+00:00] [ERROR] [REQUEST] [10.0.0.1] [/api/v1/piles] [POST] [0B] []"
    );

    let all_present = HTTPRequestLog {
        timestamp: Timestamp::new(1999, 12, 31, 23, 59, 59).unwrap(),
        log_level: LogLevel::ERROR,
        originating_ip_addr: "10.0.0.1".to_owned(),
        api: "/api/v1/piles".to_owned(),
        restful_method: "POST".to_owned(),
        payload_size_in_bytes: Some(12),
        body_as_utf8_str: Some("x".to_owned()),
    };

    assert_eq!(
        all_present.as_log_str(),
        "[1999-12-31T23:59:59+00:00] [ERROR] [REQUEST] [10.0.0.1] [/api/v1/piles] [POST] [12B] [x]"
    );
}

#[test]
fn rendered_lines_hold_no_newline() {
    let log = DBResponseLog {
        timestamp: Timestamp::new(2014, 7, 8, 9, 10, 11).unwrap(),
        log_level: LogLevel::ERROR,
        exit_code: 1,
        message: Some("Error creating db entry!".to_owned()),
    };
    assert!(!log.as_log_str().contains('\n'));

    let log_2 = HTTPRequestLog {
        timestamp: Timestamp::new(2014, 7, 8, 9, 10, 11).unwrap(),
        log_level: LogLevel::INFO,
        originating_ip_addr: "35.111.95.142".to_owned(),
        api: "/api/v1/health_check".to_owned(),
        restful_method: "GET".to_owned(),
        payload_size_in_bytes: Some(30),
        body_as_utf8_str: Some("{\"json_key\": \"json_value_str\"}".to_owned()),
    };
    assert!(!log_2.as_log_str().contains('\n'));
}

#[test]
fn body_with_embedded_brackets_is_not_escaped() {
    let log = HTTPResponseLog {
        timestamp: Timestamp::new(2014, 7, 8, 9, 10, 11).unwrap(),
        log_level: LogLevel::INFO,
        originating_ip_addr: "127.0.0.1".to_owned(),
        response_status_code: 404,
        body_as_utf8_str: Some("[not] [found]".to_owned()),
    };

    assert_eq!(
        log.as_log_str(),
        "[2014-07-08T09:10:11+00:00] [INFO] [RESPONSE] [127.0.0.1] [404] [[not] [found]]"
    );
}
