use scrcpy_panel::panel_status::bundled_translation;
use scrcpy_panel::panel_status::{batch_scan, clipboard_send, query_args, query_log_lines, report_line, split_lines, ClipboardSend, Transfer};
use scrcpy_panel::panel_status::{server_check, shown_server_version, ServerCheck};
use scrcpy_panel::panel_status::{metric_codecs, metric_duration, metric_resolution, metric_rotation};
use scrcpy_panel::panel_status::screenshot_path;
use scrcpy_panel::panel_status::{
    adb_status_text, adb_version, clock_stamp, is_apk, log_level_of, server_version_from_name,
    server_version_from_path, shortcut_rows, transfer_name, transfer_report,
};

#[test]
fn a_line_is_logged_at_the_level_it_names() {
    assert_eq!(log_level_of("ERROR: it broke"), "ERROR");
    assert_eq!(log_level_of("WARN: careful"), "WARN");
    assert_eq!(log_level_of("ERROR and WARN"), "ERROR");
    assert_eq!(log_level_of("just talking"), "INFO");
}

#[test]
fn the_clock_is_the_time_of_day() {
    assert_eq!(clock_stamp(0), "00:00:00");
    assert_eq!(clock_stamp(86_399), "23:59:59");
    assert_eq!(clock_stamp(86_400 + 3_661), "01:01:01");
}

#[test]
fn an_apk_is_installed_and_anything_else_pushed() {
    assert!(is_apk("/tmp/app.apk"));
    assert!(is_apk("/tmp/APP.APK"));
    assert!(!is_apk("/tmp/app.apk.txt"));
    assert!(!is_apk("/tmp/apk"));

    let installed = transfer_report("app.apk", true, None, "/sdcard/Download/");
    assert!(installed.ok && !installed.scanworthy);
    assert_eq!(installed.message, "Kuruldu: app.apk");

    let pushed = transfer_report("a.txt", false, None, "/sdcard/Download/");
    assert!(pushed.ok && pushed.scanworthy);
    assert_eq!(pushed.message, "Gönderildi: a.txt → /sdcard/Download/");

    let refused = transfer_report("a.txt", false, Some("no space"), "/sdcard/");
    assert!(!refused.ok && !refused.scanworthy);
    assert_eq!(refused.message, "Gönderilemedi: a.txt — no space");
    assert_eq!(transfer_report("b.apk", true, Some("x"), "/").message, "Kurulamadı: b.apk — x");
}

#[test]
fn a_transfer_is_named_by_its_file() {
    assert_eq!(transfer_name("/home/someone/file.txt"), "file.txt");
    assert_eq!(transfer_name("/"), "");
}

#[test]
fn the_adb_line_says_the_version_and_an_unusual_port() {
    let out = "Android Debug Bridge version 1.0.41\nVersion 35.0.2\n";
    assert_eq!(adb_version(out), "1.0.41");
    assert_eq!(adb_version(""), "?");
    assert_eq!(adb_status_text(Some(out), None, "adb"), "adb 1.0.41 · hazır");
    assert_eq!(adb_status_text(Some(out), Some(5037), "adb"), "adb 1.0.41 · hazır");
    assert_eq!(adb_status_text(Some(out), Some(5038), "adb"), "adb 1.0.41 · :5038 · hazır");
    assert_eq!(adb_status_text(None, None, "adb"), "adb bulunamadı");
    assert_eq!(adb_status_text(None, None, "/opt/adb"), "adb bulunamadı: /opt/adb");
}

#[test]
fn a_server_file_carries_its_version() {
    assert_eq!(server_version_from_name("scrcpy-server-v4.1"), Some("4.1".to_string()));
    assert_eq!(server_version_from_name("scrcpy-server"), None);
    assert_eq!(server_version_from_name("scrcpy-server.jar"), None);
    assert_eq!(server_version_from_path("/usr/share/scrcpy/scrcpy-server_3.3"), Some("3.3".to_string()));
    assert_eq!(server_version_from_path("/opt/scrcpy-server-v4.1/scrcpy-server"), None);
}

#[test]
fn every_shortcut_has_a_description() {
    let rows = shortcut_rows();
    assert_eq!(rows.len(), 29);
    assert!(rows.iter().all(|(keys, what)| !keys.is_empty() && !what.is_empty()));
}

#[test]
fn the_server_check_compares_the_version_in_the_name() {
    assert_eq!(server_check(Some("4.1"), "4.1"), ServerCheck::Ready);
    assert_eq!(server_check(Some("2.4"), "4.1"), ServerCheck::Mismatch);
    assert_eq!(server_check(None, "4.1"), ServerCheck::Unknown);
    assert_eq!(shown_server_version(None, "4.1"), "4.1");
    assert_eq!(shown_server_version(Some("2.4"), "4.1"), "2.4");
}

#[test]
fn the_metrics_table_says_what_runs() {
    assert_eq!(metric_duration(0), "00:00");
    assert_eq!(metric_duration(65), "01:05");
    assert_eq!(metric_duration(6_000), "100:00");
    assert_eq!(metric_duration(6_001), format!("{:02}:{:02}", 6_001 / 60, 6_001 % 60));
    assert_eq!(metric_resolution(1080, 2400), "1080 × 2400");
    assert_eq!(metric_codecs("h264", "opus", false), "h264 + opus");
    assert_eq!(metric_codecs("h264", "opus", true), "h264");
    assert_eq!(metric_rotation(90), "90°");
}

#[test]
fn a_screenshot_goes_in_the_folder_asked_for() {
    assert_eq!(screenshot_path("/data/shots", Some("/home/a"), 17), "/data/shots/scrcpy-17.png");
    assert_eq!(screenshot_path("", Some("/home/a"), 17), "/home/a/Pictures/scrcpy-17.png");
    assert_eq!(screenshot_path("", None, 0), "./scrcpy-0.png");
}

#[test]
fn a_query_logs_every_line_that_says_something() {
    assert_eq!(split_lines("a\nb\r\n\nc"), vec!["a", "b", "", "c"]);
    assert_eq!(split_lines("a\n"), vec!["a"]);
    assert_eq!(split_lines(""), Vec::<String>::new());
    assert_eq!(split_lines("x\r"), vec!["x\r"]);
    for text in ["a\nb\r\n\nc", "one\r\n", "\n\n", "x\r", "tail"] {
        let ours: Vec<String> = split_lines(text);
        let std_lines: Vec<String> = text.lines().map(|l| l.to_string()).collect();
        assert_eq!(ours, std_lines, "{text:?}");
    }
    assert_eq!(query_log_lines("enc1\n  \nenc2\n", "warning\n"), vec!["enc1", "enc2", "warning"]);
    assert_eq!(query_args("--list-encoders", ""), vec!["--list-encoders"]);
    assert_eq!(query_args("--list-apps", "R58M"), vec!["--list-apps", "--serial", "R58M"]);
}

#[test]
fn a_failed_transfer_is_marked_in_the_log_and_a_push_is_indexed_once() {
    let failed = Transfer::failed("Gönderilemedi: a — b".to_string());
    assert_eq!(report_line(&failed), "ERROR Gönderilemedi: a — b");
    let installed = Transfer::done("Kuruldu: a.apk".to_string());
    assert_eq!(report_line(&installed), "Kuruldu: a.apk");
    assert!(!batch_scan(&vec![installed]));
    let pushed = Transfer::pushed("Gönderildi: a → /sdcard".to_string());
    assert!(batch_scan(&vec![failed, pushed]));
    assert!(!batch_scan(&vec![]));
}

#[test]
fn the_clipboard_goes_only_where_it_can() {
    assert_eq!(clipboard_send(false, false, false, true), ClipboardSend::NotThisWay);
    assert_eq!(clipboard_send(true, true, false, true), ClipboardSend::Empty);
    assert_eq!(clipboard_send(true, false, true, true), ClipboardSend::Camera);
    assert_eq!(clipboard_send(true, false, false, false), ClipboardSend::NoSession);
    assert_eq!(clipboard_send(true, false, false, true), ClipboardSend::Send);
}

#[test]
fn the_source_language_needs_no_translation() {
    assert_eq!(bundled_translation("tr"), "");
    assert_eq!(bundled_translation("en"), "en");
}
