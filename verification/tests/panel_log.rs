use scrcpy_panel::panel_log::{
    copy_message,
    disk_header, disk_line, disk_opened, disk_step, DiskAction, DiskLog, LogRow, LogTail, LOG_ROWS,
};

fn row(n: usize) -> LogRow {
    LogRow { time: "21:00:39".to_string(), level: "INFO".to_string(), message: format!("line {n}") }
}

#[test]
fn the_tab_keeps_the_last_five_hundred_rows() {
    let mut tail = LogTail::new();
    for n in 0..LOG_ROWS + 20 {
        tail.push(row(n));
    }
    assert_eq!(tail.len(), LOG_ROWS);
    assert_eq!(tail.get(0).unwrap().message, "line 20");
    assert_eq!(tail.get(LOG_ROWS - 1).unwrap().message, format!("line {}", LOG_ROWS + 19));
    assert!(tail.get(LOG_ROWS).is_none());
    tail.clear();
    assert_eq!(tail.len(), 0);
}

#[test]
fn a_short_log_keeps_every_row() {
    let mut tail = LogTail::new();
    tail.push(row(1));
    tail.push(row(2));
    assert_eq!(tail.len(), 2);
    assert_eq!(tail.get(1).unwrap().message, "line 2");
}

#[test]
fn the_file_is_opened_once_and_a_failure_waits_for_the_switch() {
    let closed = DiskLog { open: false, failed: false };
    assert_eq!(disk_step(closed, true), (closed, DiskAction::Open));
    let open = disk_opened(closed, true);
    assert_eq!(disk_step(open, true), (open, DiskAction::Write));
    assert_eq!(disk_step(open, false), (closed, DiskAction::Close));

    let failed = disk_opened(closed, false);
    assert_eq!(disk_step(failed, true).1, DiskAction::Skip);
    let (off, _) = disk_step(failed, false);
    assert_eq!(disk_step(off, true).1, DiskAction::Open);
}

#[test]
fn a_line_of_the_file_lines_up_its_level() {
    assert_eq!(
        disk_line("2026-08-22T21:00:39.213Z", "INFO", "Oturum başladı."),
        "2026-08-22T21:00:39.213Z INFO  Oturum başladı."
    );
    assert_eq!(disk_line("t", "ERROR", "x"), "t ERROR x");
    assert_eq!(disk_line("t", "VERBOSE", "x"), "t VERBOSE x");
    assert_eq!(disk_line("t", "WARN", "x"), format!("{} {:<5} {}", "t", "WARN", "x"));
    assert_eq!(disk_header("0.9.0", "2026-08-22T21:00:39Z"), "--- scrcpy-panel 0.9.0 — 2026-08-22T21:00:39Z ---");
}

#[test]
fn copying_the_log_copies_what_the_filter_shows() {
    let mut tail = LogTail::new();
    tail.push(LogRow { time: "10:00:00".into(), level: "INFO".into(), message: "a".into() });
    tail.push(LogRow { time: "10:00:01".into(), level: "WARN".into(), message: "b".into() });
    tail.push(LogRow { time: "10:00:02".into(), level: "INFO".into(), message: "c".into() });
    assert_eq!(tail.copy_text("all"), ("10:00:00 INFO a\n10:00:01 WARN b\n10:00:02 INFO c".to_string(), 3));
    assert_eq!(tail.copy_text("info"), ("10:00:00 INFO a\n10:00:02 INFO c".to_string(), 2));
    assert_eq!(tail.copy_text("error"), (String::new(), 0));
    assert_eq!(copy_message(3, "all"), "3 satır panoya kopyalandı.");
    assert_eq!(copy_message(2, "info"), "2 satır panoya kopyalandı (info süzgeci).");
}
