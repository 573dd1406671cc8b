use scrcpy_panel::panel_actions::{tray_action, TrayAction};
use scrcpy_panel::panel_actions::{autostart, Autostart};
use scrcpy_panel::options::Options;
use scrcpy_panel::panel_actions::{
    connect_address, device_args, device_key, form_serial, keep_present, launch_plan, needs_tcpip_switch,
    profile_description, record_format_arg, record_toggle, selection_label, toggle_device, wants_uhid,
    windowed_meta, windows_watch, DeviceKey, LaunchPlan, Profile, ProfileBook, WindowsWatch,
};
use scrcpy_panel::panel_command::PanelConfig;

fn strings(v: &[&str]) -> Vec<String> {
    v.iter().map(|s| s.to_string()).collect()
}

#[test]
fn clicking_a_row_ticks_it_and_clicking_again_unticks_it() {
    let mut selected = Vec::new();
    assert!(toggle_device(&mut selected, "A"));
    assert!(toggle_device(&mut selected, "B"));
    assert_eq!(selected, strings(&["A", "B"]));
    assert!(!toggle_device(&mut selected, "A"));
    assert_eq!(selected, strings(&["B"]));
    assert!(toggle_device(&mut selected, "A"));
    assert_eq!(selected, strings(&["B", "A"]));
}

#[test]
fn a_rescan_keeps_the_ticks_of_the_devices_it_finds() {
    let kept = keep_present(strings(&["A", "B", "C"]), &strings(&["C", "A", "D"]));
    assert_eq!(kept, strings(&["A", "C"]));
}

#[test]
fn the_selection_is_named_and_points_the_form() {
    assert_eq!(selection_label(&vec![]), "cihaz seçilmedi");
    assert_eq!(selection_label(&strings(&["R58M"])), "R58M");
    assert_eq!(selection_label(&strings(&["A", "B", "C"])), "3 cihaz seçildi");
    assert_eq!(form_serial(&strings(&["A", "B"])), "A");
    assert_eq!(form_serial(&vec![]), "");
}

#[test]
fn a_launch_is_one_client_per_device() {
    assert_eq!(launch_plan(true, 1, true), LaunchPlan::AlreadyRunning);
    assert_eq!(launch_plan(false, 0, true), LaunchPlan::Embedded);
    assert_eq!(launch_plan(false, 1, false), LaunchPlan::Windowed);
    assert_eq!(launch_plan(false, 2, true), LaunchPlan::WindowPerDevice { explain: true });
    assert_eq!(launch_plan(false, 3, false), LaunchPlan::WindowPerDevice { explain: false });

    let args = strings(&["--serial=A", "--max-size=800", "--serial=B"]);
    assert_eq!(device_args(args, "C"), strings(&["--max-size=800", "--serial=C"]));
}

#[test]
fn the_device_keys_send_android_key_events() {
    assert_eq!(device_key("back"), DeviceKey::Send("KEYCODE_BACK"));
    assert_eq!(device_key("apps"), DeviceKey::Send("KEYCODE_APP_SWITCH"));
    assert_eq!(device_key("power"), DeviceKey::Send("KEYCODE_POWER"));
    assert_eq!(device_key("rotate"), DeviceKey::Rotate);
    assert_eq!(device_key("menu"), DeviceKey::Unknown);
}

#[test]
fn a_network_address_gets_adbs_port() {
    assert_eq!(connect_address(""), None);
    assert_eq!(connect_address("192.168.1.5"), Some("192.168.1.5:5555".to_string()));
    assert_eq!(connect_address("192.168.1.5:5556"), Some("192.168.1.5:5556".to_string()));
    assert!(needs_tcpip_switch("R58M31XABCD"));
    assert!(!needs_tcpip_switch("192.168.1.42:5555"));
}

#[test]
fn switching_recording_on_names_a_file_when_none_is_named() {
    assert_eq!(record_toggle(false, ""), (true, Some("scrcpy.mp4")));
    assert_eq!(record_toggle(false, "/tmp/x.mkv"), (true, None));
    assert_eq!(record_toggle(true, ""), (false, None));
    assert_eq!(record_format_arg("mp4"), None);
    assert_eq!(record_format_arg("mkv"), Some("mkv".to_string()));
}

#[test]
fn uhid_input_is_asked_for_by_either_device() {
    let mut o = Options::default();
    assert!(!wants_uhid(&o));
    o.mouse = "aoa".to_string();
    assert!(wants_uhid(&o));
}

#[test]
fn the_session_tab_counts_the_windows() {
    assert_eq!(windowed_meta("h264", 1), "h264 · ayrı pencere");
    assert_eq!(windowed_meta("h265", 3), "h265 · ayrı pencere ×3");
    assert_eq!(windows_watch(2, 0), WindowsWatch::AllClosed);
    assert_eq!(windows_watch(3, 2), WindowsWatch::SomeClosed(2));
    assert_eq!(windows_watch(2, 2), WindowsWatch::Unchanged);
    assert_eq!(windows_watch(0, 0), WindowsWatch::Unchanged);
}

fn a_profile(name: &str) -> Profile {
    Profile { name: name.to_string(), description: String::new(), config: PanelConfig::default() }
}

#[test]
fn saving_while_editing_writes_back_and_otherwise_adds() {
    let mut book = ProfileBook::new(vec![a_profile("İş"), a_profile("Oyun")]);
    let message = book.save(PanelConfig::default(), profile_description(4, "h264"));
    assert_eq!(message, "Profil kaydedildi: Profil 3");
    assert_eq!(book.len(), 3);
    assert_eq!(book.get(2).unwrap().description, "4 bayrak · h264");

    assert!(book.edit(1));
    let mut config = PanelConfig::default();
    config.max_size = "1024".to_string();
    let message = book.save(config, "1 bayrak · h264".to_string());
    assert_eq!(message, "Profil güncellendi: Oyun");
    assert_eq!(book.len(), 3);
    assert_eq!(book.get(1).unwrap().config.max_size, "1024");

    // The edit is over: the next save adds again.
    book.save(PanelConfig::default(), String::new());
    assert_eq!(book.len(), 4);
}

#[test]
fn deleting_a_profile_ends_the_edit_in_flight() {
    let mut book = ProfileBook::new(vec![a_profile("A"), a_profile("B"), a_profile("C")]);
    assert!(book.edit(2));
    let removed = book.delete(0).expect("a profile");
    assert_eq!(removed.name, "A");
    assert_eq!(book.len(), 2);
    let message = book.save(PanelConfig::default(), String::new());
    assert_eq!(message, "Profil kaydedildi: Profil 3", "not written over whatever is at 2 now");
    assert!(book.delete(9).is_none());
    assert!(!book.apply(9));
    assert!(book.apply(0));
}

#[test]
fn a_device_is_started_on_once_while_it_stays() {
    let (fired, what) = autostart(Some("R58M"), true, None, false, true);
    assert_eq!((fired.clone(), what), (Some("R58M".to_string()), Autostart::Start));
    let (fired, what) = autostart(Some("R58M"), true, fired, false, true);
    assert_eq!(what, Autostart::Nothing);
    let (fired, what) = autostart(None, true, fired, false, true);
    assert_eq!((fired.clone(), what), (None, Autostart::Forget));
    assert_eq!(autostart(Some("R58M"), true, fired, false, false).1, Autostart::NoProfile);
    assert_eq!(autostart(Some("R58M"), false, None, false, true).1, Autostart::Nothing);
    assert_eq!(autostart(Some("R58M"), true, None, true, true).1, Autostart::Nothing);
}

#[test]
fn resetting_the_form_ends_an_edit() {
    let mut book = ProfileBook::new(vec![a_profile("A")]);
    assert!(book.edit(0));
    book.end_edit();
    book.save(PanelConfig::default(), String::new());
    assert_eq!(book.len(), 2, "the save adds rather than writing over A");
}

#[test]
fn the_tray_icon_follows_its_setting() {
    assert_eq!(tray_action(false, true), TrayAction::Remove);
    assert_eq!(tray_action(false, false), TrayAction::Remove);
    assert_eq!(tray_action(true, true), TrayAction::Keep);
    assert_eq!(tray_action(true, false), TrayAction::Create);
}
