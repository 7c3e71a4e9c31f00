use steady_ink::logging::{is_steady_ink_log_file, log_file_name, log_is_expired, LOG_RETENTION_NANOS};

#[test]
fn daily_log_names_carry_the_local_date() {
    assert_eq!(log_file_name("2024-05-06"), "steady-ink.2024-05-06.log");
}

#[test]
fn only_product_logs_are_recognised() {
    assert!(is_steady_ink_log_file("steady-ink.2024-05-06.log"));
    assert!(is_steady_ink_log_file("steady-ink.log.2024-05-06"));
    assert!(!is_steady_ink_log_file("steady-ink.2024-05-06.txt"));
    assert!(!is_steady_ink_log_file("other.2024-05-06.log"));
    assert!(!is_steady_ink_log_file("steady-ink"));
    assert!(is_steady_ink_log_file("steady-ink..log"));
}

#[test]
fn logs_expire_after_seven_days() {
    let day = 24 * 60 * 60 * 1_000_000_000u128;
    assert_eq!(LOG_RETENTION_NANOS, 7 * day);
    assert!(!log_is_expired(Some(7 * day)));
    assert!(log_is_expired(Some(7 * day + 1)));
    assert!(!log_is_expired(None));
}

#[test]
fn every_daily_log_is_reached_by_cleanup() {
    for date in ["2024-05-06", "", "1999-12-31", "日期"] {
        assert!(is_steady_ink_log_file(&log_file_name(date)));
    }
}
