use sparkling::domain::value_objects::Date;
use sparkling::infrastructure::config::{AppConfig, DatabaseConfig, Environment, TelegramConfig};
use sparkling::numbers::{parse_i64, parse_i64_list, parse_u32};
use sparkling::text::{
    chars_of, decimal, eq_ignoring_ascii_case, escape_html, is_blank, join, str_eq, string_of,
    text_le,
};

#[test]
fn decimal_texts() {
    assert_eq!(decimal(0), "0");
    assert_eq!(decimal(7), "7");
    assert_eq!(decimal(42), "42");
    assert_eq!(decimal(-42), "-42");
    assert_eq!(decimal(1000), "1000");
    assert_eq!(decimal(i64::MAX), "9223372036854775807");
    assert_eq!(decimal(i64::MIN), "-9223372036854775808");
}

#[test]
fn html_escaping() {
    assert_eq!(escape_html(""), "");
    assert_eq!(escape_html("plain"), "plain");
    assert_eq!(escape_html("a & b"), "a &amp; b");
    assert_eq!(escape_html("<b>&</b>"), "&lt;b&gt;&amp;&lt;/b&gt;");
    assert_eq!(escape_html("&amp;"), "&amp;amp;");
}

#[test]
fn blank_texts() {
    assert!(is_blank(""));
    assert!(is_blank(" \t\r\n"));
    assert!(is_blank("\u{a0}\u{2003}\u{3000}"));
    assert!(!is_blank(" x "));
    assert!(!is_blank("\u{200b}"));
    for code in 0..0x3100u32 {
        if let Some(c) = char::from_u32(code) {
            assert_eq!(is_blank(&c.to_string()), c.is_whitespace(), "U+{:04X}", code);
        }
    }
}

#[test]
fn comparing_texts() {
    assert!(str_eq("abc", "abc"));
    assert!(!str_eq("abc", "abd"));
    assert!(!str_eq("abc", "ab"));
    assert!(eq_ignoring_ascii_case("RoadMap", "roadmap"));
    assert!(eq_ignoring_ascii_case("", ""));
    assert!(!eq_ignoring_ascii_case("Roadmap", "Roadmaps"));
    assert!(!eq_ignoring_ascii_case("\u{c9}t\u{e9}", "\u{e9}t\u{e9}"));
    assert!(text_le("", ""));
    assert!(text_le("", "a"));
    assert!(!text_le("a", ""));
    assert!(text_le("Alpha", "alpha"));
    assert!(text_le("ab", "abc"));
    assert!(!text_le("abd", "abc"));
    assert!(text_le("abc", "abc"));
}

#[test]
fn chars_and_back() {
    assert_eq!(chars_of("h\u{e9}llo"), vec!['h', '\u{e9}', 'l', 'l', 'o']);
    assert_eq!(string_of(&vec!['o', 'k']), "ok");
    assert_eq!(join(&vec![], ", "), "");
    assert_eq!(join(&vec!["a".to_string()], ", "), "a");
    assert_eq!(join(&vec!["a".to_string(), "b".to_string(), "c".to_string()], ", "), "a, b, c");
}

#[test]
fn dates_as_text() {
    assert_eq!(Date { year: 2015, month: 9, day: 18 }.to_string(), "2015-09-18");
    assert_eq!(Date { year: 1, month: 1, day: 1 }.to_string(), "0001-01-01");
    assert_eq!(Date { year: 0, month: 12, day: 31 }.to_string(), "0000-12-31");
    assert_eq!(Date { year: 9999, month: 12, day: 31 }.to_string(), "9999-12-31");
    assert_eq!(Date { year: 12345, month: 6, day: 7 }.to_string(), "+12345-06-07");
    assert_eq!(Date { year: -1, month: 2, day: 3 }.to_string(), "-0001-02-03");
    assert_eq!(Date { year: -262143, month: 1, day: 1 }.to_string(), "-262143-01-01");
}

#[test]
fn dates_are_written_as_chrono_writes_them() {
    for (year, month, day) in
        [(2015, 9, 18), (1, 1, 1), (0, 12, 31), (9999, 12, 31), (10000, 1, 1), (-1, 2, 3), (-9999, 5, 6), (-10000, 7, 8), (262142, 12, 31)]
    {
        let theirs = chrono::NaiveDate::from_ymd_opt(year, month, day).unwrap().to_string();
        let ours = Date { year, month: month as u8, day: day as u8 }.to_string();
        assert_eq!(ours, theirs);
    }
}

#[test]
fn reading_numbers() {
    assert_eq!(parse_i64("0"), Some(0));
    assert_eq!(parse_i64("42"), Some(42));
    assert_eq!(parse_i64("+42"), Some(42));
    assert_eq!(parse_i64("-42"), Some(-42));
    assert_eq!(parse_i64("0042"), Some(42));
    assert_eq!(parse_i64("9223372036854775807"), Some(i64::MAX));
    assert_eq!(parse_i64("-9223372036854775808"), Some(i64::MIN));
    assert_eq!(parse_i64("9223372036854775808"), None);
    assert_eq!(parse_i64("-9223372036854775809"), None);
    assert_eq!(parse_i64("99999999999999999999999999"), None);
    assert_eq!(parse_i64(""), None);
    assert_eq!(parse_i64("+"), None);
    assert_eq!(parse_i64("-"), None);
    assert_eq!(parse_i64(" 1"), None);
    assert_eq!(parse_i64("1 "), None);
    assert_eq!(parse_i64("1_000"), None);
    assert_eq!(parse_i64("--1"), None);
    assert_eq!(parse_u32("5"), Some(5));
    assert_eq!(parse_u32("+5"), Some(5));
    assert_eq!(parse_u32("4294967295"), Some(u32::MAX));
    assert_eq!(parse_u32("4294967296"), None);
    assert_eq!(parse_u32("-5"), None);
    assert_eq!(parse_u32("-0"), None);
    assert_eq!(parse_u32(""), None);
}

#[test]
fn reading_numbers_as_std_does() {
    for text in ["0", "-0", "+0", "007", "+", "-", "", "12a", "a12", "١٢", "18446744073709551615", "-9223372036854775808", "9223372036854775807", "9223372036854775808", " 7", "7\n"] {
        assert_eq!(parse_i64(text), text.parse::<i64>().ok(), "{:?}", text);
        assert_eq!(parse_u32(text), text.parse::<u32>().ok(), "{:?}", text);
    }
}

#[test]
fn reading_lists_of_numbers() {
    assert_eq!(parse_i64_list("1,2,3"), Some(vec![1, 2, 3]));
    assert_eq!(parse_i64_list(" 1 , -2,\t3 "), Some(vec![1, -2, 3]));
    assert_eq!(parse_i64_list("7"), Some(vec![7]));
    assert_eq!(parse_i64_list(""), None);
    assert_eq!(parse_i64_list("1,,2"), None);
    assert_eq!(parse_i64_list("1,2,"), None);
    assert_eq!(parse_i64_list("1;2"), None);
    assert_eq!(parse_i64_list("1, 2 3"), None);
}

fn environment() -> Environment {
    Environment {
        telegram_bot_token: Some("SECRET-REDACTED".to_string()),
        telegram_allowed_user_ids: Some("10, 20".to_string()),
        database_path: Some("/data/fizzy.db".to_string()),
        database_max_connections: None,
        fizzy_account_id: Some("acc".to_string()),
        fizzy_user_id: Some("usr".to_string()),
        fizzy_default_board_id: Some("brd".to_string()),
        fizzy_base_url: None,
    }
}

#[test]
fn configuration_from_a_full_environment() {
    let config = AppConfig::from_env(&environment()).unwrap();
    assert_eq!(config.telegram.bot_token, "SECRET-REDACTED");
    assert_eq!(config.telegram.allowed_user_ids, vec![10, 20]);
    assert_eq!(config.database.path, "/data/fizzy.db");
    assert_eq!(config.database.max_connections, 5);
    assert_eq!(config.fizzy.account_id, "acc");
    assert_eq!(config.fizzy.user_id, "usr");
    assert_eq!(config.fizzy.default_board_id, "brd");
    assert_eq!(config.fizzy.base_url, None);
    let mut env = environment();
    env.database_max_connections = Some("12".to_string());
    env.fizzy_base_url = Some("https://fizzy.example".to_string());
    let config = AppConfig::from_env(&env).unwrap();
    assert_eq!(config.database.max_connections, 12);
    assert_eq!(config.fizzy.base_url.as_deref(), Some("https://fizzy.example"));
    let copy = config.clone();
    assert_eq!(copy.telegram.allowed_user_ids, vec![10, 20]);
}

#[test]
fn configuration_names_the_first_thing_that_is_wrong() {
    let mut env = environment();
    env.telegram_bot_token = None;
    env.database_path = None;
    assert_eq!(AppConfig::from_env(&env).unwrap_err(), "TELEGRAM_BOT_TOKEN not set");
    let mut env = environment();
    env.telegram_allowed_user_ids = None;
    assert_eq!(AppConfig::from_env(&env).unwrap_err(), "TELEGRAM_ALLOWED_USER_IDS not set");
    let mut env = environment();
    env.telegram_allowed_user_ids = Some("10, x".to_string());
    assert_eq!(AppConfig::from_env(&env).unwrap_err(), "Invalid TELEGRAM_ALLOWED_USER_IDS format");
    let mut env = environment();
    env.database_path = None;
    assert_eq!(AppConfig::from_env(&env).unwrap_err(), "DATABASE_PATH not set");
    let mut env = environment();
    env.database_max_connections = Some("many".to_string());
    assert_eq!(AppConfig::from_env(&env).unwrap_err(), "Invalid DATABASE_MAX_CONNECTIONS");
    let mut env = environment();
    env.fizzy_account_id = None;
    assert_eq!(AppConfig::from_env(&env).unwrap_err(), "FIZZY_ACCOUNT_ID not set");
    let mut env = environment();
    env.fizzy_user_id = None;
    assert_eq!(AppConfig::from_env(&env).unwrap_err(), "FIZZY_USER_ID not set");
    let mut env = environment();
    env.fizzy_default_board_id = None;
    assert_eq!(AppConfig::from_env(&env).unwrap_err(), "FIZZY_DEFAULT_BOARD_ID not set");
}

#[test]
fn allowed_users_and_connection_string() {
    let telegram = TelegramConfig { bot_token: String::new(), allowed_user_ids: vec![1, 5, -3] };
    assert!(telegram.is_user_allowed(5));
    assert!(telegram.is_user_allowed(-3));
    assert!(!telegram.is_user_allowed(0));
    let database = DatabaseConfig { path: "/tmp/x.db".to_string(), max_connections: 1 };
    assert_eq!(database.connection_string(), "sqlite:///tmp/x.db?mode=ro");
}
