use countdown_timer::download::download_error_message;
use countdown_timer::download::file_name_from_url;
use countdown_timer::download::update_file_path;
use countdown_timer::logging::log_path_in;
use countdown_timer::logging::plan_log_write;
use countdown_timer::logging::plan_log_write_now;
use countdown_timer::logging::render_log_line;
use countdown_timer::logging::rotation_marker_line;
use countdown_timer::logging::MAX_LOG_SIZE;
use countdown_timer::text::contains_ci_str;
use countdown_timer::text::ends_with_ci_str;
use countdown_timer::text::u16_dec;

const TS: &str = "2024-01-02 03:04:05";

#[test]
fn log_line_format() {
    assert_eq!(render_log_line(TS, "timer started"), "[2024-01-02 03:04:05] timer started");
}

#[test]
fn rotation_marker_format() {
    assert_eq!(
        rotation_marker_line(TS),
        "[2024-01-02 03:04:05] [INFO] Log file cleared automatically (size exceeded 10MB)"
    );
}

#[test]
fn no_rotation_at_or_below_limit() {
    let plan = plan_log_write(Some(MAX_LOG_SIZE), TS, "entry");
    assert!(!plan.truncate_first);
    assert!(plan.marker.is_none());
    assert_eq!(plan.line, "[2024-01-02 03:04:05] entry");

    let plan = plan_log_write(None, TS, "entry");
    assert!(!plan.truncate_first);
    assert!(plan.marker.is_none());
}

#[test]
fn rotation_above_limit_truncates_and_marks() {
    let plan = plan_log_write(Some(MAX_LOG_SIZE + 1), TS, "entry");
    assert!(plan.truncate_first);
    assert_eq!(
        plan.marker,
        Some(
            "[2024-01-02 03:04:05] [INFO] Log file cleared automatically (size exceeded 10MB)"
                .to_string()
        )
    );
    assert_eq!(plan.line, "[2024-01-02 03:04:05] entry");
}

#[test]
fn timestamped_plan_wraps_the_message() {
    let plan = plan_log_write_now(None, "hello");
    assert!(!plan.truncate_first);
    assert!(plan.marker.is_none());
    assert!(plan.line.starts_with('['));
    assert!(plan.line.ends_with("] hello"));
}

#[test]
fn log_path_is_beside_the_directory() {
    assert_eq!(log_path_in("/opt/timer"), "/opt/timer/app.log");
}

#[test]
fn file_name_is_last_url_segment() {
    assert_eq!(
        file_name_from_url("https://dl.example.com/releases/App-Setup-1.0.exe"),
        "App-Setup-1.0.exe"
    );
    assert_eq!(file_name_from_url("no-slashes"), "no-slashes");
    assert_eq!(file_name_from_url("ends-with-slash/"), "");
}

#[test]
fn update_path_joins_directory_and_name() {
    assert_eq!(
        update_file_path("/data/app/update", "App-Setup-1.0.exe"),
        "/data/app/update/App-Setup-1.0.exe"
    );
}

#[test]
fn download_error_carries_the_code() {
    assert_eq!(download_error_message(503), "Download failed, HTTP status code: 503");
}

#[test]
fn decimal_rendering() {
    assert_eq!(u16_dec(0), "0");
    assert_eq!(u16_dec(7), "7");
    assert_eq!(u16_dec(404), "404");
    assert_eq!(u16_dec(65535), "65535");
}

#[test]
fn case_insensitive_matching() {
    assert!(contains_ci_str("App-SETUP-1.0.exe", "setup"));
    assert!(!contains_ci_str("App-Installer.exe", "setup"));
    assert!(ends_with_ci_str("App.MSI", ".msi"));
    assert!(!ends_with_ci_str("App.msi.txt", ".msi"));
}
