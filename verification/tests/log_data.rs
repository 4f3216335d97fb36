use ph::log::{
    expired, is_log_file_name, latest_log_file_name, log_file_name, log_paths,
    read_dir_failure_message, remove_failure_message, select_garbage, LogDirEntry, LogLevel,
    LogMessage, ParseLogLevelError, PrintBuffer,
};

#[test]
fn data_test_log_level_ordering() {
    assert!(LogLevel::Info < LogLevel::Warning);
    assert!(LogLevel::Warning < LogLevel::Error);
    assert!(LogLevel::Info < LogLevel::Error);
    assert_eq!(LogLevel::Info, LogLevel::Info);
}

#[test]
fn data_test_log_level_display() {
    assert_eq!(LogLevel::Info.to_string(), "INFO");
    assert_eq!(LogLevel::Warning.to_string(), "WARN");
    assert_eq!(LogLevel::Error.to_string(), "ERROR");
}

#[test]
fn test_log_level_from_str() {
    assert_eq!(LogLevel::from_str("info").unwrap(), LogLevel::Info);
    assert_eq!(LogLevel::from_str("INFO").unwrap(), LogLevel::Info);
    assert_eq!(LogLevel::from_str("warn").unwrap(), LogLevel::Warning);
    assert_eq!(LogLevel::from_str("warning").unwrap(), LogLevel::Warning);
    assert_eq!(LogLevel::from_str("error").unwrap(), LogLevel::Error);
    assert!(LogLevel::from_str("notalevel").is_err());
}

#[test]
fn test_log_message_display() {
    let msg = LogMessage {
        level: LogLevel::Error,
        scope: "test",
        message: "fail".to_string(),
    };
    let output = msg.to_string();
    // Check that the output contains the expected parts
    assert!(output.contains("[ERROR]"));
    assert!(output.contains("[test]"));
    assert!(output.contains("fail"));
    // Check the format: [timestamp] [level] [scope] message
    assert!(output.matches('[').count() == 3);
    assert!(output.matches(']').count() == 3);
}

#[test]
fn test_log_message_ordering_and_equality() {
    let a = LogMessage {
        level: LogLevel::Info,
        scope: "test",
        message: "a".to_string(),
    };
    let b = LogMessage {
        level: LogLevel::Warning,
        scope: "test",
        message: "b".to_string(),
    };
    let c = LogMessage {
        level: LogLevel::Info,
        scope: "test",
        message: "a".to_string(),
    };
    assert!(a < b);
    assert_eq!(a, c);
}

#[test]
fn log_level_default_and_rank() {
    assert_eq!(LogLevel::default(), LogLevel::Info);
    assert_eq!(LogLevel::Info.rank(), 0);
    assert_eq!(LogLevel::Warning.rank(), 1);
    assert_eq!(LogLevel::Error.rank(), 2);
    assert!(LogLevel::Error.at_least(LogLevel::Warning));
    assert!(LogLevel::Warning.at_least(LogLevel::Warning));
    assert!(!LogLevel::Info.at_least(LogLevel::Warning));
}

#[test]
fn log_level_from_str_mixed_case_and_error_text() {
    assert_eq!(LogLevel::from_str("WaRnInG").unwrap(), LogLevel::Warning);
    assert_eq!(LogLevel::from_str("ERROR").unwrap(), LogLevel::Error);
    let e = LogLevel::from_str("Verbose").unwrap_err();
    assert_eq!(e, ParseLogLevelError { input: String::from("Verbose") });
    assert_eq!(e.message(), "Invalid log level: Verbose");
    assert!(LogLevel::from_lowercase("INFO").is_err());
    assert_eq!(LogLevel::from_lowercase("warn").unwrap(), LogLevel::Warning);
}

#[test]
fn log_message_render_exact_line() {
    let msg = LogMessage { level: LogLevel::Warning, scope: "net", message: "slow".to_string() };
    assert_eq!(msg.render("T"), "[T] [WARN] [net] slow");
}

#[test]
fn log_message_stamped_at_epoch() {
    let msg = LogMessage { level: LogLevel::Info, scope: "app", message: "up".to_string() };
    assert_eq!(msg.stamped(0, 0), "[1970-01-01 00:00:00 UTC] [INFO] [app] up");
    assert_eq!(msg.stamped(86_400 + 61, 5), "[1970-01-02 00:01:01 UTC] [INFO] [app] up");
}

#[test]
fn print_buffer_keeps_messages_at_threshold() {
    let mut buf = PrintBuffer::new(LogLevel::Warning, String::from("/tmp/l/latest.log"));
    assert_eq!(buf.flush_trailer(), None);
    buf.record(LogMessage { level: LogLevel::Info, scope: "s", message: "i".to_string() });
    assert!(buf.logs_to_print.is_empty());
    assert_eq!(buf.flush_trailer(), None);
    buf.record(LogMessage { level: LogLevel::Warning, scope: "s", message: "w".to_string() });
    buf.record(LogMessage { level: LogLevel::Error, scope: "s", message: "e".to_string() });
    assert_eq!(buf.logs_to_print.len(), 2);
    assert_eq!(buf.logs_to_print[0].message, "w");
    assert_eq!(
        buf.flush_trailer(),
        Some(String::from("Check the full log file: /tmp/l/latest.log"))
    );
}

#[test]
fn log_file_names_and_paths() {
    assert_eq!(log_file_name("2024"), "patch-hub_2024.log");
    assert_eq!(latest_log_file_name(), "latest.log");
    let (stamped, latest) = log_paths("/logs", "X");
    assert_eq!(stamped, "/logs/patch-hub_X.log");
    assert_eq!(latest, "/logs/latest.log");
    let (stamped, _) = log_paths("/logs/", "X");
    assert_eq!(stamped, "/logs/patch-hub_X.log");
    assert!(is_log_file_name("patch-hub_abc.log"));
    assert!(is_log_file_name(&log_file_name("anything")));
    assert!(!is_log_file_name("latest.log"));
    assert!(!is_log_file_name("patch-hub_abc.txt"));
}

#[test]
fn log_expiry_by_days() {
    let day: u64 = 24 * 60 * 60;
    assert!(!expired(0, 1000 * day));
    assert!(!expired(2, 2 * day));
    assert!(!expired(2, 3 * day - 1));
    assert!(expired(2, 3 * day));
}

#[test]
fn log_garbage_selection() {
    let day: u64 = 24 * 60 * 60;
    let entries = vec![
        LogDirEntry { path: String::from("/l/patch-hub_a.log"), file_name: Some(String::from("patch-hub_a.log")), age_secs: Some(10 * day) },
        LogDirEntry { path: String::from("/l/latest.log"), file_name: Some(String::from("latest.log")), age_secs: Some(10 * day) },
        LogDirEntry { path: String::from("/l/patch-hub_b.log"), file_name: Some(String::from("patch-hub_b.log")), age_secs: Some(day) },
        LogDirEntry { path: String::from("/l/patch-hub_c.log"), file_name: Some(String::from("patch-hub_c.log")), age_secs: None },
        LogDirEntry { path: String::from("/l/patch-hub_d.log"), file_name: Some(String::from("patch-hub_d.log")), age_secs: Some(30 * day) },
    ];
    assert_eq!(select_garbage(5, &entries), vec![String::from("/l/patch-hub_a.log"), String::from("/l/patch-hub_d.log")]);
    assert!(select_garbage(0, &entries).is_empty());
}

#[test]
fn log_failure_messages() {
    let m = read_dir_failure_message();
    assert_eq!(m.level, LogLevel::Error);
    assert_eq!(m.scope, "log");
    assert_eq!(m.message, "Failed to read the logs directory during garbage collection");
    let m = remove_failure_message("/l/x.log");
    assert_eq!(m.level, LogLevel::Warning);
    assert_eq!(m.message, "Failed to remove the log file: /l/x.log");
}

#[test]
fn log_level_labels_parse_back() {
    for level in [LogLevel::Info, LogLevel::Warning, LogLevel::Error] {
        assert_eq!(LogLevel::from_str(&level.to_string()).unwrap(), level);
    }
    assert_eq!(LogLevel::from_str("Error").unwrap(), LogLevel::from_str("error").unwrap());
    assert!(LogLevel::from_str("WARNINGS").is_err());
}
