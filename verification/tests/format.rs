//! The rendered text: decimal digits, the summon label, and the log
//! line.

use salt_client::logging::{GodotLog, LogLevel};
use salt_client::text::{summon_label, to_decimal};
use salt_client::types::{CardId, CardView};

#[test]
fn decimal_rendering_is_exact() {
    assert_eq!(to_decimal(0), "0");
    assert_eq!(to_decimal(7), "7");
    assert_eq!(to_decimal(10), "10");
    assert_eq!(to_decimal(409), "409");
    assert_eq!(to_decimal(u64::MAX), "18446744073709551615");
}

#[test]
fn summon_label_shows_title_and_stats() {
    let card = CardView {
        id: CardId::new(1),
        title: "Emerald Drake".to_string(),
        attack: 4,
        health: 12,
    };
    assert_eq!(summon_label(&card), "Emerald Drake\n4/12");
}

#[test]
fn log_line_format_is_exact() {
    let log = GodotLog::init();
    let line = log.format_record(LogLevel::Info, "client::driver", 42, "connected");
    assert_eq!(line, "[INFO][client::driver][42] connected");
    let line = log.format_record(LogLevel::Error, "bus", 7, "closed");
    assert_eq!(line, "[ERROR][bus][7] closed");
}

#[test]
fn level_filter_passes_up_to_the_configured_level() {
    let log = GodotLog::init();
    assert!(log.enabled(LogLevel::Error));
    assert!(log.enabled(LogLevel::Warn));
    assert!(log.enabled(LogLevel::Info));
    assert!(!log.enabled(LogLevel::Debug));
    assert!(!log.enabled(LogLevel::Trace));
}
