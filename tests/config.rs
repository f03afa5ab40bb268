use when_works::config::{
    default_log_level, default_port, default_shutdown_timeout, duration_from_signed,
    duration_from_text, duration_from_unsigned, DurationError, TimeSpan,
};

#[test]
fn defaults() {
    assert_eq!(default_log_level(), "info");
    assert_eq!(default_port(), 8080);
    assert_eq!(default_shutdown_timeout(), TimeSpan { secs: 8, nanos: 0 });
}

#[test]
fn durations_from_numbers() {
    assert_eq!(duration_from_unsigned(30), TimeSpan { secs: 30, nanos: 0 });
    assert_eq!(duration_from_signed(5), Ok(TimeSpan { secs: 5, nanos: 0 }));
    assert_eq!(duration_from_signed(0), Ok(TimeSpan { secs: 0, nanos: 0 }));
    assert_eq!(duration_from_signed(-1), Err(DurationError::Negative));
}

#[test]
fn durations_from_text() {
    assert_eq!(duration_from_text("5"), Ok(TimeSpan { secs: 5, nanos: 0 }));
    assert_eq!(duration_from_text("30s"), Ok(TimeSpan { secs: 30, nanos: 0 }));
    assert_eq!(duration_from_text("2m"), Ok(TimeSpan { secs: 120, nanos: 0 }));
    assert_eq!(duration_from_text("3500ms"), Ok(TimeSpan { secs: 3, nanos: 500_000_000 }));
    assert_eq!(duration_from_text("1m 30s"), Ok(TimeSpan { secs: 90, nanos: 0 }));
}

#[test]
fn invalid_duration_text() {
    assert!(matches!(duration_from_text("soon"), Err(DurationError::Invalid(_))));
    assert!(matches!(duration_from_text("1.5s"), Err(DurationError::Invalid(_))));
    assert!(matches!(duration_from_text("inf"), Err(DurationError::Invalid(_))));
    assert!(matches!(duration_from_text("1h"), Err(DurationError::Invalid(_))));
}
