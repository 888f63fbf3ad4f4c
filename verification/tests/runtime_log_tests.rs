use tdu2_runtime_patch::runtime_log::{
    format_log_entry, log_error, log_info, log_line, log_runtime_banner, log_warn, LogLevel,
};

#[test]
fn records_keep_target_and_message() {
    let r = log_info("config", "Config loaded");
    assert_eq!(r.level, LogLevel::Info);
    assert_eq!(r.target, "config");
    assert_eq!(r.message, "Config loaded");
    assert_eq!(log_warn("fov", "w").level, LogLevel::Warn);
    assert_eq!(log_error("memory", "e").level, LogLevel::Error);
    let l = log_line("init_thread started");
    assert_eq!(l.target, "runtime");
    assert_eq!(l.level, LogLevel::Info);
    assert_eq!(l.message, "init_thread started");
}

#[test]
fn banner_text() {
    let b = log_runtime_banner("tdu2-runtime-patch", "0.1.0", Some("abc1234"));
    assert_eq!(b.message, "tdu2-runtime-patch v0.1.0 (git abc1234)");
    assert_eq!(b.target, "runtime");
    let b = log_runtime_banner("p", "1.2.3", None);
    assert_eq!(b.message, "p v1.2.3 (git unknown)");
}

#[test]
fn log_line_format() {
    assert_eq!(
        format_log_entry("2024-01-02 03:04:05", "INFO", "runtime", "hello"),
        "[2024-01-02 03:04:05][INFO][runtime] hello"
    );
}
