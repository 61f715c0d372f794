use table_browser::config::port_or_default;
use table_browser::config::Settings;
use table_browser::decimal::parse_dec_saturating;
use table_browser::decimal::u64_to_dec;
use table_browser::ident::check_ident;
use table_browser::plans::effective_limit;

#[test]
fn ident_accepts_plain_names() {
    assert!(check_ident("users"));
    assert!(check_ident("a"));
    assert!(check_ident("A_1"));
    assert!(check_ident("table_2_copy"));
    assert!(check_ident("_leading"));
    assert!(check_ident("0starts_with_digit"));
}

#[test]
fn ident_rejects_delimiters_and_empties() {
    assert!(!check_ident(""));
    assert!(!check_ident("us ers"));
    assert!(!check_ident("us`ers"));
    assert!(!check_ident("users;"));
    assert!(!check_ident("users'"));
    assert!(!check_ident("users\""));
    assert!(!check_ident("users,names"));
    assert!(!check_ident("naïve"));
    assert!(!check_ident("a-b"));
    assert!(!check_ident("a.b"));
}

#[test]
fn limit_defaults_to_twenty_when_absent() {
    assert_eq!(effective_limit(&None), 20);
}

#[test]
fn limit_defaults_to_twenty_when_unparsable() {
    assert_eq!(effective_limit(&Some("abc".to_string())), 20);
    assert_eq!(effective_limit(&Some("".to_string())), 20);
    assert_eq!(effective_limit(&Some("-5".to_string())), 20);
    assert_eq!(effective_limit(&Some("1 0".to_string())), 20);
    assert_eq!(effective_limit(&Some("+".to_string())), 20);
}

#[test]
fn limit_clamps_to_one_thousand() {
    assert_eq!(effective_limit(&Some("5000".to_string())), 1000);
    assert_eq!(effective_limit(&Some("1001".to_string())), 1000);
    assert_eq!(effective_limit(&Some("1000".to_string())), 1000);
    assert_eq!(effective_limit(&Some("999".to_string())), 999);
    assert_eq!(effective_limit(&Some("99999999999999999999999999".to_string())), 1000);
}

#[test]
fn limit_keeps_small_values_exactly() {
    assert_eq!(effective_limit(&Some("0".to_string())), 0);
    assert_eq!(effective_limit(&Some("1".to_string())), 1);
    assert_eq!(effective_limit(&Some("20".to_string())), 20);
    assert_eq!(effective_limit(&Some("+15".to_string())), 15);
}

#[test]
fn saturating_parser_tracks_cap() {
    assert_eq!(parse_dec_saturating("0", 1000), Some(0));
    assert_eq!(parse_dec_saturating("1000", 1000), Some(1000));
    assert_eq!(parse_dec_saturating("1001", 1000), Some(1001));
    assert_eq!(parse_dec_saturating("65535", 65535), Some(65535));
    assert_eq!(parse_dec_saturating("65536", 65535), Some(65536));
    assert_eq!(parse_dec_saturating("007", 1000), Some(7));
    assert_eq!(parse_dec_saturating("x7", 1000), None);
    assert_eq!(parse_dec_saturating("7x", 1000), None);
    assert_eq!(parse_dec_saturating("", 1000), None);
    assert_eq!(parse_dec_saturating("+", 1000), None);
}

#[test]
fn decimal_printer_is_exact() {
    assert_eq!(u64_to_dec(0), "0");
    assert_eq!(u64_to_dec(7), "7");
    assert_eq!(u64_to_dec(10), "10");
    assert_eq!(u64_to_dec(1000), "1000");
    assert_eq!(u64_to_dec(9007199254740993), "9007199254740993");
    assert_eq!(u64_to_dec(u64::MAX), "18446744073709551615");
}

#[test]
fn ports_fall_back_to_defaults() {
    assert_eq!(port_or_default(&None, 3306), 3306);
    assert_eq!(port_or_default(&Some("3307".to_string()), 3306), 3307);
    assert_eq!(port_or_default(&Some("0".to_string()), 3306), 0);
    assert_eq!(port_or_default(&Some("65535".to_string()), 3306), 65535);
    assert_eq!(port_or_default(&Some("65536".to_string()), 3306), 3306);
    assert_eq!(port_or_default(&Some("abc".to_string()), 8080), 8080);
}

#[test]
fn settings_apply_defaults() {
    let s = Settings::new(
        None,
        None,
        "root".to_string(),
        "example_pw".to_string(),
        "inventory".to_string(),
        Some("9090".to_string()),
    );
    assert_eq!(s.mysql_host, "localhost");
    assert_eq!(s.mysql_port, 3306);
    assert_eq!(s.mysql_user, "root");
    assert_eq!(s.mysql_db, "inventory");
    assert_eq!(s.app_port, 9090);
}

#[test]
fn settings_keep_given_values() {
    let s = Settings::new(
        Some("db.internal".to_string()),
        Some("3310".to_string()),
        "svc".to_string(),
        "pw".to_string(),
        "app".to_string(),
        None,
    );
    assert_eq!(s.mysql_host, "db.internal");
    assert_eq!(s.mysql_port, 3310);
    assert_eq!(s.app_port, 8080);
}
