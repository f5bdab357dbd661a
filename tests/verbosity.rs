use cli_helpers::{select_log_level_filter, LogLevel, Verbosity};

#[test]
fn levels_by_count() {
    assert_eq!(select_log_level_filter(0), LogLevel::Off);
    assert_eq!(select_log_level_filter(1), LogLevel::Error);
    assert_eq!(select_log_level_filter(2), LogLevel::Warn);
    assert_eq!(select_log_level_filter(3), LogLevel::Info);
    assert_eq!(select_log_level_filter(4), LogLevel::Debug);
    assert_eq!(select_log_level_filter(5), LogLevel::Trace);
    assert_eq!(select_log_level_filter(255), LogLevel::Trace);
}

#[test]
fn verbosity_keeps_its_count() {
    let v = Verbosity::new(3);
    assert_eq!(v.verbose(), 3);
    assert_eq!(v.log_level(), LogLevel::Info);
    assert_eq!(v, Verbosity::new(3));
    assert_ne!(v, Verbosity::new(2));
}
