use std::path::Path;

use world_monitor::text::{format_token, log_line, sanitize_path_for_node};

fn sanitize(p: &Path) -> String {
    sanitize_path_for_node(&p.to_string_lossy())
}

#[test]
fn strips_extended_drive_prefix() {
    let raw = Path::new(r"\\?\C:\Program Files\nodejs\node.exe");
    assert_eq!(sanitize(raw), r"C:\Program Files\nodejs\node.exe".to_string());
}

#[test]
fn strips_extended_unc_prefix_and_preserves_unc_root() {
    let raw = Path::new(r"\\?\UNC\server\share\sidecar\local-api-server.mjs");
    assert_eq!(
        sanitize(raw),
        r"\\server\share\sidecar\local-api-server.mjs".to_string()
    );
}

#[test]
fn leaves_standard_paths_unchanged() {
    let raw = Path::new(r"C:\Users\alice\sidecar\local-api-server.mjs");
    assert_eq!(
        sanitize(raw),
        r"C:\Users\alice\sidecar\local-api-server.mjs".to_string()
    );
}

#[test]
fn sanitizes_short_examples() {
    assert_eq!(sanitize_path_for_node(r"\\?\C:\a\b"), r"C:\a\b");
    assert_eq!(sanitize_path_for_node(r"\\?\UNC\server\share\x"), r"\\server\share\x");
    assert_eq!(sanitize_path_for_node(r"\\server\share\x"), r"\\server\share\x");
    assert_eq!(sanitize_path_for_node("/usr/lib/app"), "/usr/lib/app");
    assert_eq!(sanitize_path_for_node(""), "");
    assert_eq!(sanitize_path_for_node(r"\\?\"), "");
}

#[test]
fn token_is_two_sixteen_digit_hex_numbers() {
    assert_eq!(format_token(0, 0), "00000000000000000000000000000000");
    assert_eq!(
        format_token(0x0123_4567_89ab_cdef, u64::MAX),
        "0123456789abcdefffffffffffffffff"
    );
    assert_eq!(format_token(255, 16), "00000000000000ff0000000000000010");
}

#[test]
fn log_line_has_time_level_and_message() {
    assert_eq!(log_line(0, "INFO", "up"), "[0][INFO] up");
    assert_eq!(
        log_line(1_700_000_000, "ERROR", "worker failed"),
        "[1700000000][ERROR] worker failed"
    );
    assert_eq!(log_line(u64::MAX, "WARN", ""), "[18446744073709551615][WARN] ");
}
