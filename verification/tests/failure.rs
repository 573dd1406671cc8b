use scrcpy_panel::failure::failure_card;
use scrcpy_panel::failure::{classify, Remedy};

const REAL_MESSAGES: &[(&str, &str)] = &[
    (
        "error: device unauthorized.\nThis adb server's $ADB_VENDOR_KEYS is not set",
        "Cihaz yetkilendirilmemiş",
    ),
    ("R58M31XABCD offline usb:1-3", "Cihaz çevrimdışı"),
    (
        "Device selection failed: No device connected. Plug in your phone and \
         enable USB debugging.",
        "Cihaz bulunamadı",
    ),
    (
        "adb: error: failed to get feature set: more than one device/emulator",
        "Birden fazla cihaz bağlı",
    ),
    (
        "Device selection failed: 2 devices connected. Use --serial to select one: \
         [\"R58M31XABCD\", \"192.168.1.42:5555\"]",
        "Birden fazla cihaz bağlı",
    ),
    (
        "Device selection failed: No USB device among [\"192.168.1.42:5555\"]",
        "Cihaz bulunamadı",
    ),
    ("--require-audio and --no-audio contradict each other", "Seçenekler çelişiyor"),
    (
        "scrcpy-server not found. Download from:\n\
         https://github.com/Genymobile/scrcpy/releases/download/v4.1/scrcpy-server-v4.1\n\
         and place it next to the executable.",
        "scrcpy-server bulunamadı",
    ),
    (
        "Failed to push /usr/share/scrcpy/scrcpy-server to /data/local/tmp: \
         ADB error: device 'R58M31XABCD' not found",
        "Cihaz çevrimdışı",
    ),
    (
        "ERROR: The server version (2.4) does not match the client (4.1)",
        "scrcpy sürümü uyumsuz",
    ),
    ("ERROR: Encoder 'c2.android.hevc.encoder' not found", "Kodlayıcı bulunamadı"),
    ("ERROR: Could not capture audio, audio disabled", "Ses aktarılamıyor"),
    ("Failed to open output file: Permission denied", "Dosya yazılamıyor"),
    (
        "Failed to open ADB tunnel: Could not set up forward tunnel on ports \
         27183..27199",
        "Port kullanımda",
    ),
    ("Failed to connect to ADB daemon on 127.0.0.1:5037.", "adb sunucusu çalışmıyor"),
    ("Failed to run adb: No such file or directory (os error 2)", "adb bulunamadı"),
];

#[test]
fn real_messages_land_on_the_card_that_names_them() {
    for (text, title) in REAL_MESSAGES {
        assert_eq!(classify(text).title, *title, "for {text:?}");
    }
}

#[test]
fn the_specific_card_wins_over_the_generic_one() {
    let text = "adb: error: device unauthorized";
    assert_eq!(classify(text).title, "Cihaz yetkilendirilmemiş");
}

#[test]
fn an_unrecognised_failure_still_gets_a_card() {
    let failure = classify("something nobody has seen before");
    assert_eq!(failure.title, "İşlem başarısız");
    assert_eq!(failure.remedy, Remedy::Nothing);
    assert_eq!(failure.remedy.label(), None, "no button with nothing to do");
}

#[test]
fn case_does_not_hide_a_message() {
    // Upper case reaches the card only if the text is lower-cased first.
    assert_eq!(classify("DEVICE UNAUTHORIZED").title, "Cihaz yetkilendirilmemiş");
    assert_eq!(classify("ADB: DEVICE OFFLINE").title, "Cihaz çevrimdışı");
}

#[test]
fn every_remedy_but_nothing_has_a_button() {
    for remedy in [Remedy::RestartAdb, Remedy::PickAdbPath, Remedy::ListEncoders, Remedy::OpenSettings] {
        assert!(remedy.label().is_some());
    }
    assert_eq!(Remedy::RestartAdb.label(), Some("adb sunucusunu yeniden başlat"));
}

#[test]
fn white_space_clears_the_card() {
    assert!(failure_card("  \n ").is_none());
    assert!(failure_card("").is_none());
    assert_eq!(failure_card("device offline").unwrap().title, "Cihaz çevrimdışı");
}

#[test]
fn classification_ignores_case() {
    let text = "ERROR: Encoder 'x' not found";
    let card = classify(text);
    assert_eq!(card.title, "Kodlayıcı bulunamadı");
    assert_eq!(classify(&text.to_ascii_uppercase()), card);
    assert_eq!(classify(&text.to_ascii_lowercase()), card);
    let other = "adb: device unauthorized";
    assert_eq!(classify(&other.to_ascii_uppercase()), classify(other));
}
