use reflect::config;
use reflect::defaults;
use reflect::fanout::{holds, plan_destinations};
use reflect::text::{compose, push_decimal, write_around};
use reflect::types::{Configuration, Database, DatabaseConfig, LogLevel};

#[test]
fn defaults_are_as_documented() {
    assert_eq!(defaults::prefix(), "r~");
    assert_eq!(defaults::log_file(), "output.log");
    assert_eq!(defaults::log_level(), LogLevel::Info);
    assert_eq!(defaults::database_max_connections(), 20);
    assert_eq!(defaults::database_host(), "redis://localhost");
    let database: DatabaseConfig = defaults::database_configuration();
    assert_eq!(database.host, "redis://localhost");
    assert_eq!(database.max_connections, 20);
}

#[test]
fn named_channel_defaults_are_as_documented() {
    assert_eq!(config::default_prefix(), "r~");
    assert_eq!(config::default_channel_name(), "megachat");
    assert_eq!(config::default_log_level(), LogLevel::Info);
}

#[test]
fn configuration_holds_its_fields() {
    let configuration = Configuration {
        token: String::from("t"),
        prefix: defaults::prefix(),
        log_file: defaults::log_file(),
        log_level: defaults::log_level(),
        admins: Some(vec![1, 2]),
        database: defaults::database_configuration(),
    };
    assert_eq!(configuration.admins, Some(vec![1, 2]));
    assert_eq!(configuration.database.max_connections, 20);
    assert_eq!(format!("{:?}", Database), "Database");
}

#[test]
fn compose_joins_name_marker_and_content() {
    assert_eq!(compose("ann", false, "hi"), "ann: hi");
    assert_eq!(compose("ann", true, "hi"), "ann (admin): hi");
    assert_eq!(compose("", false, ""), ": ");
}

#[test]
fn decimal_numerals() {
    let mut out = String::from("x");
    push_decimal(&mut out, 0);
    assert_eq!(out, "x0");
    push_decimal(&mut out, 907);
    assert_eq!(out, "x0907");
    assert_eq!(write_around("<#", u64::MAX, ">"), "<#18446744073709551615>");
    assert_eq!(write_around("", 10, ""), "10");
}

#[test]
fn destinations_skip_origin_and_repeats() {
    assert_eq!(plan_destinations(&vec![100, 200], 100), vec![200]);
    assert_eq!(plan_destinations(&vec![3, 1, 3, 2, 1], 1), vec![3, 2]);
    assert_eq!(plan_destinations(&vec![], 1), Vec::<u64>::new());
    assert_eq!(plan_destinations(&vec![1, 1], 1), Vec::<u64>::new());
    assert!(holds(&vec![4, 5], 5));
    assert!(!holds(&vec![4, 5], 6));
}
