use scrcpy_panel::panel_files::launch_record;
use scrcpy_panel::panel_files::adb_dir;
use scrcpy_panel::panel_files::{child_adb_port, config_dir_from, StoredSettings, expand_home, record_path_for, under_home, without_trailing_slashes};

const HOME: &str = "/home/someone";

fn path_for(typed: &str, folder: &str) -> String {
    record_path_for(typed, folder, Some(HOME))
}

#[test]
fn a_recording_path_has_its_tilde_expanded_wherever_it_came_from() {
    let home = HOME;
    let folder = format!("{home}/Videos/scrcpy");

    assert_eq!(path_for("oturum-01.mp4", &folder), format!("{folder}/oturum-01.mp4"));

    assert_eq!(
        path_for("~/Videos/scrcpy/oturum-01.mp4", &folder),
        format!("{home}/Videos/scrcpy/oturum-01.mp4")
    );
    assert!(!path_for("~/x.mp4", &folder).contains('~'));

    assert_eq!(path_for("/tmp/x.mp4", &folder), "/tmp/x.mp4");

    assert_eq!(path_for("x.mp4", ""), "x.mp4");
    assert_eq!(path_for("   ", &folder), "");
}

#[test]
fn a_folder_with_a_trailing_slash_is_not_doubled() {
    assert_eq!(path_for("x.mp4", "/data/rec/"), "/data/rec/x.mp4");
    assert_eq!(without_trailing_slashes("/a/b//"), "/a/b");
    assert_eq!(without_trailing_slashes("///"), "");
}

#[test]
fn a_tilde_with_no_home_is_left_alone() {
    assert_eq!(expand_home("~/x", None), "~/x");
    assert_eq!(expand_home("~/x", Some("/root/")), "/root/x");
    assert_eq!(expand_home("~x", Some("/root")), "~x");
    assert_eq!(expand_home("/x/~/y", Some("/root")), "/x/~/y");
}

#[test]
fn a_path_under_home_is_shown_with_a_tilde() {
    assert_eq!(under_home("/home/someone/.config/x.json", Some(HOME)), "~/.config/x.json");
    assert_eq!(under_home("/home/someoneelse/x", Some(HOME)), "/home/someoneelse/x");
    assert_eq!(under_home("/home/someone", Some(HOME)), "/home/someone");
    assert_eq!(under_home("/etc/x", None), "/etc/x");
}

#[test]
fn the_configuration_lives_under_xdg_or_home() {
    assert_eq!(config_dir_from(Some("/x"), Some("/h")), Some("/x/scrcpy-slint".to_string()));
    assert_eq!(config_dir_from(None, Some("/h")), Some("/h/.config/scrcpy-slint".to_string()));
    assert_eq!(config_dir_from(None, None), None);
    assert_eq!(child_adb_port(Some(5037)), None);
    assert_eq!(child_adb_port(Some(5038)), Some(5038));
    assert_eq!(child_adb_port(None), None);
}

#[test]
fn stored_preferences_keep_the_defaults_they_leave_empty() {
    let mut shown = StoredSettings::default();
    shown.adb_path = "adb".to_string();
    shown.language = "tr".to_string();
    shown.record_dir = "/old".to_string();
    let mut stored = StoredSettings::default();
    stored.language = "en".to_string();
    stored.log_to_disk = true;
    shown.apply_stored(stored);
    assert_eq!(shown.adb_path, "adb", "nothing stored: the default stays");
    assert_eq!(shown.language, "en");
    assert_eq!(shown.record_dir, "", "taken as stored, empty or not");
    assert!(shown.log_to_disk);
}

#[test]
fn a_launch_records_into_the_folder_and_makes_it_first() {
    let home = Some("/home/a");
    assert_eq!(
        launch_record(true, "x.mp4", " ~/Videos/ ", home),
        ("/home/a/Videos/x.mp4".to_string(), Some("/home/a/Videos/".to_string()))
    );
    assert_eq!(launch_record(true, "/tmp/x.mp4", "~/Videos", home), ("/tmp/x.mp4".to_string(), None));
    assert_eq!(launch_record(false, "x.mp4", "~/Videos", home), ("x.mp4".to_string(), None));
    assert_eq!(launch_record(true, "x.mp4", "", home), ("x.mp4".to_string(), None));
}

#[test]
fn a_bare_adb_needs_no_directory_on_the_path() {
    assert_eq!(adb_dir("adb"), None);
    assert_eq!(adb_dir(""), None);
}

#[test]
fn a_chosen_adb_puts_its_own_directory_first() {
    assert_eq!(adb_dir("/opt/sdk/platform-tools/adb").as_deref(), Some("/opt/sdk/platform-tools"));
    assert_eq!(adb_dir("tools/adb").as_deref(), Some("tools"));
    assert_eq!(adb_dir("/adb").as_deref(), Some("/"));
}
