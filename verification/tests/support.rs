use auth_backend::config::{
    get_range, parse_i64, parse_u16, parse_unsigned, AppConfig, AppEnv,
};
use auth_backend::constants::{
    ADMIN_EMAIL, DEFAULT_OTP_LENGTH, MAX_LOGIN_ATTEMPTS, SESSION_HEADER_KEY,
};
use auth_backend::types::{
    DbDateTime, MAX_DURATION_SECONDS, MAX_TIMESTAMP_MILLIS, MIN_TIMESTAMP_MILLIS,
};
use auth_backend::utils::{
    clone_texts, digit_str, find_char, i64_to_string, is_prod, should_add_openapi_routes,
    str_equal, u64_to_string,
};

fn config(session: i64, refresh: i64, otp: i64) -> Option<AppConfig> {
    AppConfig::new(
        "localhost".to_string(),
        "3000".to_string(),
        "sqlite://db".to_string(),
        "info".to_string(),
        (400, 600),
        session,
        refresh,
        otp,
    )
}

#[test]
fn constants_are_the_documented_ones() {
    assert_eq!(SESSION_HEADER_KEY, "X-Session-Id");
    assert_eq!(ADMIN_EMAIL, "admin@localhost");
    assert_eq!(MAX_LOGIN_ATTEMPTS, 3);
    assert_eq!(DEFAULT_OTP_LENGTH, 6);
}

#[test]
fn numbers_are_written_in_decimal() {
    assert_eq!(u64_to_string(0), "0");
    assert_eq!(u64_to_string(7), "7");
    assert_eq!(u64_to_string(10), "10");
    assert_eq!(u64_to_string(1_203_450), "1203450");
    assert_eq!(u64_to_string(u64::MAX), "18446744073709551615");
    assert_eq!(i64_to_string(0), "0");
    assert_eq!(i64_to_string(-1), "-1");
    assert_eq!(i64_to_string(42), "42");
    assert_eq!(i64_to_string(i64::MAX), "9223372036854775807");
    assert_eq!(i64_to_string(i64::MIN), "-9223372036854775808");
    assert_eq!(digit_str(0), "0");
    assert_eq!(digit_str(9), "9");
}

#[test]
fn strings_are_compared_and_searched_by_characters() {
    assert!(str_equal("", ""));
    assert!(str_equal("héllo", "héllo"));
    assert!(!str_equal("hello", "hellO"));
    assert!(!str_equal("hello", "hell"));
    assert!(!str_equal("é", "e\u{301}"));
    assert_eq!(find_char("a,b,c", ','), Some(1));
    assert_eq!(find_char("é,b", ','), Some(1));
    assert_eq!(find_char("abc", ','), None);
    assert_eq!(find_char("", ','), None);
    assert_eq!(clone_texts(&vec!["a".to_string(), "".to_string()]), vec!["a", ""]);
}

#[test]
fn only_the_name_prod_means_production() {
    assert!(is_prod(Some("Prod")));
    assert!(!is_prod(Some("Dev")));
    assert!(!is_prod(Some("prod")));
    assert!(!is_prod(Some("Production")));
    assert!(!is_prod(Some("")));
    assert!(!is_prod(None));
    assert!(!should_add_openapi_routes(Some("Prod")));
    assert!(should_add_openapi_routes(Some("Dev")));
    assert!(should_add_openapi_routes(Some("other")));
    assert!(should_add_openapi_routes(None));
}

#[test]
fn environments_are_named_dev_and_prod() {
    assert_eq!(AppEnv::parse("Dev"), Some(AppEnv::Dev));
    assert_eq!(AppEnv::parse("Prod"), Some(AppEnv::Prod));
    assert_eq!(AppEnv::parse("dev"), None);
    assert_eq!(AppEnv::parse(" Prod"), None);
    assert_eq!(AppEnv::Dev.name(), "Dev");
    assert_eq!(AppEnv::Prod.name(), "Prod");
    assert!(AppEnv::Dev.is_dev() && !AppEnv::Dev.is_prod());
    assert!(AppEnv::Prod.is_prod() && !AppEnv::Prod.is_dev());
}

#[test]
fn a_configuration_needs_positive_ordered_bounded_durations() {
    let valid = config(600, 3600, 300).unwrap();
    assert_eq!(valid.host, "localhost");
    assert_eq!(valid.port, "3000");
    assert_eq!(valid.db_url, "sqlite://db");
    assert_eq!(valid.sql_log_level, "info");
    assert_eq!(valid.status_code_range_for_error_logging, (400, 600));
    assert_eq!(valid.session_duration, 600);
    assert_eq!(valid.session_refresh_duration, 3600);
    assert_eq!(valid.otp_validity_duration, 300);
    assert!(config(1, 2, 1).is_some());
    assert!(config(1, MAX_DURATION_SECONDS, MAX_DURATION_SECONDS).is_some());
    assert!(config(0, 3600, 300).is_none());
    assert!(config(-5, 3600, 300).is_none());
    assert!(config(3600, 3600, 300).is_none());
    assert!(config(3601, 3600, 300).is_none());
    assert!(config(600, 3600, 0).is_none());
    assert!(config(600, MAX_DURATION_SECONDS + 1, 300).is_none());
    assert!(config(600, 3600, MAX_DURATION_SECONDS + 1).is_none());
    let copy = valid.clone();
    assert_eq!(copy.session_refresh_duration, 3600);
    assert_eq!(copy.host, "localhost");
}

#[test]
fn a_configuration_admits_the_instants_whose_deadlines_fit_the_calendar() {
    let valid = config(600, 3600, 7200).unwrap();
    assert!(valid.check_admits(DbDateTime(0)));
    assert!(valid.check_admits(DbDateTime(MIN_TIMESTAMP_MILLIS)));
    assert!(!valid.check_admits(DbDateTime(MIN_TIMESTAMP_MILLIS - 1)));
    assert!(valid.check_admits(DbDateTime(MAX_TIMESTAMP_MILLIS - 7_200_000)));
    assert!(!valid.check_admits(DbDateTime(MAX_TIMESTAMP_MILLIS - 7_199_999)));
    assert!(!valid.check_admits(DbDateTime(i64::MAX)));
}

#[test]
fn timestamps_count_milliseconds_within_the_calendar() {
    assert_eq!(DbDateTime::from_millis(0), Some(DbDateTime(0)));
    assert_eq!(DbDateTime::from_millis(MAX_TIMESTAMP_MILLIS), Some(DbDateTime(MAX_TIMESTAMP_MILLIS)));
    assert_eq!(DbDateTime::from_millis(MAX_TIMESTAMP_MILLIS + 1), None);
    assert_eq!(DbDateTime::from_millis(MIN_TIMESTAMP_MILLIS), Some(DbDateTime(MIN_TIMESTAMP_MILLIS)));
    assert_eq!(DbDateTime::from_millis(MIN_TIMESTAMP_MILLIS - 1), None);
    assert_eq!(DbDateTime(5).millis(), 5);
    assert_eq!(DbDateTime(1_000).plus_seconds(2), DbDateTime(3_000));
    assert_eq!(DbDateTime(-1_000).plus_seconds(0), DbDateTime(-1_000));
    assert!(DbDateTime(1).is_before(&DbDateTime(2)));
    assert!(!DbDateTime(2).is_before(&DbDateTime(2)));
    assert!(!DbDateTime(3).is_before(&DbDateTime(2)));
}

#[test]
fn the_clock_reads_the_present() {
    let first = DbDateTime::now();
    let second = DbDateTime::now();
    assert!(first.0 > 1_600_000_000_000);
    assert!(first.0 <= second.0);
    assert!(second.0 < MAX_TIMESTAMP_MILLIS);
}

#[test]
fn a_timestamp_is_stored_with_its_milliseconds() {
    assert_eq!(DbDateTime::sql_text("2024-01-02 03:04:05", 123_456_789), "2024-01-02 03:04:05.123");
    assert_eq!(DbDateTime::sql_text("2024-01-02 03:04:05", 26_490_000), "2024-01-02 03:04:05.26");
    assert_eq!(DbDateTime::sql_text("2024-01-02 03:04:05", 999_999), "2024-01-02 03:04:05.0");
    assert_eq!(DbDateTime::sql_text("", 1_999_999_999), ".1999");
}

#[test]
fn unsigned_numbers_are_read_as_the_standard_library_reads_them() {
    for text in ["0", "7", "+7", "007", "65535", "+65535", "065535", "65536", "", "+", "-0", "-1",
        " 1", "1 ", "1_0", "0x10", "1.0", "++1", "٣", "99999999999999999999999"] {
        assert_eq!(parse_u16(text), text.parse::<u16>().ok(), "{:?}", text);
        assert_eq!(parse_unsigned(text, u64::MAX), text.parse::<u64>().ok(), "{:?}", text);
    }
    assert_eq!(parse_u16("404"), Some(404));
    assert_eq!(parse_unsigned("18446744073709551615", u64::MAX), Some(u64::MAX));
    assert_eq!(parse_unsigned("18446744073709551616", u64::MAX), None);
    assert_eq!(parse_unsigned("10", 9), None);
    assert_eq!(parse_unsigned("9", 9), Some(9));
    assert_eq!(parse_unsigned("9", 5), None);
}

#[test]
fn signed_numbers_are_read_as_the_standard_library_reads_them() {
    for text in ["0", "-0", "+0", "600", "-600", "+600", "9223372036854775807",
        "9223372036854775808", "-9223372036854775808", "-9223372036854775809", "", "-", "+",
        "--1", "-+1", "+-1", " 5", "5s", "1e3"] {
        assert_eq!(parse_i64(text), text.parse::<i64>().ok(), "{:?}", text);
    }
    assert_eq!(parse_i64("-9223372036854775808"), Some(i64::MIN));
    assert_eq!(parse_i64("3600"), Some(3600));
}

#[test]
fn a_range_is_written_with_two_dots() {
    assert_eq!(get_range("400..600"), Some((400, 600)));
    assert_eq!(get_range("0..65535"), Some((0, 65535)));
    assert_eq!(get_range("+5..+6"), Some((5, 6)));
    assert_eq!(get_range("600..400"), Some((600, 400)));
    assert_eq!(get_range("400.600"), None);
    assert_eq!(get_range("400..65536"), None);
    assert_eq!(get_range("400.."), None);
    assert_eq!(get_range("..600"), None);
    assert_eq!(get_range(".."), None);
    assert_eq!(get_range("."), None);
    assert_eq!(get_range(""), None);
    assert_eq!(get_range("1...5"), None);
    assert_eq!(get_range("1..2..3"), None);
    assert_eq!(get_range("400 .. 600"), None);
}
