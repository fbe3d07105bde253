use echoinput::logging::{format_log_line, needs_rotation, LogLevel, MAX_LOG_BYTES, TIMESTAMP_LIMIT_SECS};

#[test]
fn log_line_at_epoch() {
    assert_eq!(
        format_log_line(0, LogLevel::Info, "echoinput::app", "started").as_deref(),
        Some("1970-01-01T00:00:00Z INFO  echoinput::app: started\n")
    );
}

#[test]
fn log_line_timestamp_follows_time() {
    assert_eq!(
        format_log_line(1_518_568_087, LogLevel::Error, "t", "m").as_deref(),
        Some("2018-02-14T00:28:07Z ERROR t: m\n")
    );
}

#[test]
fn log_line_last_representable_second() {
    assert_eq!(
        format_log_line(TIMESTAMP_LIMIT_SECS - 1, LogLevel::Trace, "a", "b").as_deref(),
        Some("9999-12-31T23:59:59Z TRACE a: b\n")
    );
    assert_eq!(format_log_line(TIMESTAMP_LIMIT_SECS, LogLevel::Trace, "a", "b"), None);
}

#[test]
fn level_names_are_padded() {
    assert_eq!(LogLevel::Warn.padded_name(), "WARN ");
    assert_eq!(LogLevel::Debug.padded_name(), "DEBUG");
    assert_eq!(LogLevel::Error.padded_name(), "ERROR");
}

#[test]
fn rotation_threshold() {
    assert!(!needs_rotation(0));
    assert!(!needs_rotation(MAX_LOG_BYTES - 1));
    assert!(needs_rotation(MAX_LOG_BYTES));
    assert_eq!(MAX_LOG_BYTES, 1024 * 1024);
}
