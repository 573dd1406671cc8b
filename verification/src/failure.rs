//! Turning a failure into a card the user can act on.
//!
//! The text adb or the session produced is matched, lower-cased, against the
//! failures this program can actually cause, and the first that matches
//! decides the card. The raw output is still shown underneath, so a guess
//! that lands on the wrong card does not hide what really happened.

use vstd::prelude::*;
use crate::text::{ascii_lower, ascii_upper, is_ascii_text, lemma_lower_forgets_case};
use crate::text::{has_infix, str_contains, to_lowercase, trim, trimmed, unicode_lowercase};

verus! {

/// What the panel offers to do about a failure, beyond rescanning.
#[derive(Debug, Clone, Copy, PartialEq, Eq, Structural)]
pub enum Remedy {
    /// Nothing specific to offer; the card shows only "Yeniden tara".
    Nothing,
    RestartAdb,
    PickAdbPath,
    ListEncoders,
    OpenSettings,
}

impl Remedy {
    /// The label of the secondary button each remedy has.
    pub open spec fn label_spec(self) -> Option<&'static str> {
        match self {
            Remedy::Nothing => None,
            Remedy::RestartAdb => Some("adb sunucusunu yeniden başlat"),
            Remedy::PickAdbPath => Some("adb yolunu seç"),
            Remedy::ListEncoders => Some("Kodlayıcıları listele"),
            Remedy::OpenSettings => Some("Ayarları aç"),
        }
    }

    /// The label of the secondary button, or none when there is nothing to
    /// add.
    pub fn label(self) -> (r: Option<&'static str>)
        ensures
            r == self.label_spec(),
            (self == Remedy::Nothing) == (r is None),
    {
        match self {
            Remedy::Nothing => None,
            Remedy::RestartAdb => Some("adb sunucusunu yeniden başlat"),
            Remedy::PickAdbPath => Some("adb yolunu seç"),
            Remedy::ListEncoders => Some("Kodlayıcıları listele"),
            Remedy::OpenSettings => Some("Ayarları aç"),
        }
    }
}

/// One error card.
#[derive(Debug, Clone, Copy, PartialEq, Eq)]
pub struct Failure {
    /// The kicker above the title, as in "Hata · yetki".
    pub tag: &'static str,
    pub title: &'static str,
    /// What to do about it, in a sentence.
    pub detail: &'static str,
    pub remedy: Remedy,
}

/// Which card a failure gets.
#[derive(Debug, Clone, Copy, PartialEq, Eq, Structural)]
pub enum Card {

    Contradiction,
    SeveralDevices,
    NoDevice,
    Unauthorized,
    Offline,
    VersionMismatch,
    ServerMissing,
    Encoder,
    Audio,
    FileWrite,
    PortInUse,
    AdbDaemon,
    AdbMissing,
    Generic,
}

/// Whether `needle` occurs in the lower-cased text.
pub open spec fn has(lower: Seq<char>, needle: &str) -> bool {
    has_infix(lower, needle@)
}

/// The card for a lower-cased failure text. Order matters: the specific
/// phrases come first.
pub open spec fn card_for(lower: Seq<char>) -> Card {
    if has(lower, "contradict") {
        Card::Contradiction
    } else if has(lower, "more than one device") || has(lower, "multiple devices") || has(lower, "devices connected") || has(lower, "use --serial") {
        Card::SeveralDevices
    } else if has(lower, "no device") || has(lower, "device among") {
        Card::NoDevice
    } else if has(lower, "unauthorized") {
        Card::Unauthorized
    } else if has(lower, "offline") || has(lower, "connection closed") || has(lower, "connection reset") || (has(lower, "device '") && has(lower, "not found")) {
        Card::Offline
    } else if has(lower, "server version") || has(lower, "does not match") {
        Card::VersionMismatch
    } else if has(lower, "scrcpy-server not found") {
        Card::ServerMissing
    } else if has(lower, "encoder") {
        Card::Encoder
    } else if has(lower, "audio") {
        Card::Audio
    } else if has(lower, "permission denied") || has(lower, "failed to open output") || has(lower, "read-only") {
        Card::FileWrite
    } else if has(lower, "tunnel on ports") || has(lower, "already in use") || has(lower, "could not find any port") || has(lower, "bind") {
        Card::PortInUse
    } else if has(lower, "adb daemon") || has(lower, "start-server") {
        Card::AdbDaemon
    } else if has(lower, "no such file") || has(lower, "program not found") || has(lower, "os error 2") {
        Card::AdbMissing
    } else {
        Card::Generic
    }
}

/// The remedy each card offers.
pub open spec fn remedy_of(card: Card) -> Remedy {
    match card {
        Card::Contradiction => Remedy::OpenSettings,
        Card::SeveralDevices => Remedy::Nothing,
        Card::NoDevice => Remedy::RestartAdb,
        Card::Unauthorized => Remedy::RestartAdb,
        Card::Offline => Remedy::Nothing,
        Card::VersionMismatch => Remedy::OpenSettings,
        Card::ServerMissing => Remedy::Nothing,
        Card::Encoder => Remedy::ListEncoders,
        Card::Audio => Remedy::Nothing,
        Card::FileWrite => Remedy::OpenSettings,
        Card::PortInUse => Remedy::RestartAdb,
        Card::AdbDaemon => Remedy::RestartAdb,
        Card::AdbMissing => Remedy::PickAdbPath,
        Card::Generic => Remedy::Nothing,
    }
}

/// The words and the remedy of each card.
pub open spec fn failure_of(card: Card) -> Failure {
    match card {
        Card::Contradiction => Failure {
            tag: "Hata · ayar",
            title: "Seçenekler çelişiyor",
            detail: "Sesi kapatan seçenek ile ses olmadan çıkmayı isteyen seçenek bir arada işaretli. Ses bölümünde ikisinden birini kaldırın.",
            remedy: Remedy::OpenSettings,
        },
        Card::SeveralDevices => Failure {
            tag: "Hata · cihaz",
            title: "Birden fazla cihaz bağlı",
            detail: "Hangisinin yansıtılacağı belirsiz. Cihazlar sekmesinden birini işaretleyin.",
            remedy: Remedy::Nothing,
        },
        Card::NoDevice => Failure {
            tag: "Hata · cihaz",
            title: "Cihaz bulunamadı",
            detail: "USB kablosunu takın ve cihazdaki USB hata ayıklama istemini onaylayın. Kablosuz bir cihazı Cihazlar sekmesindeki TCP/IP alanından bağlayın.",
            remedy: Remedy::RestartAdb,
        },
        Card::Unauthorized => Failure {
            tag: "Hata · yetki",
            title: "Cihaz yetkilendirilmemiş",
            detail: "Cihaz ekranındaki \"Bu bilgisayara izin ver\" istemini onaylayın. İstem çıkmıyorsa USB hata ayıklamayı kapatıp açın.",
            remedy: Remedy::RestartAdb,
        },
        Card::Offline => Failure {
            tag: "Hata · bağlantı",
            title: "Cihaz çevrimdışı",
            detail: "Bağlantı koptu. Kabloyu ve USB kipini denetleyin; kablosuz bir cihazda yeniden bağlanmak gerekebilir.",
            remedy: Remedy::Nothing,
        },
        Card::VersionMismatch => Failure {
            tag: "Hata · sürüm",
            title: "scrcpy sürümü uyumsuz",
            detail: "Cihazdaki sunucu ile istemci aynı sürüm olmalı. Ayarlar'dan bu istemcinin beklediği sürümde bir scrcpy-server seçin.",
            remedy: Remedy::OpenSettings,
        },
        Card::ServerMissing => Failure {
            tag: "Hata · sunucu",
            title: "scrcpy-server bulunamadı",
            detail: "Cihaza gönderilecek sunucu dosyası yok. scrcpy paketini kurun ya da scrcpy-server dosyasını çalıştırılabilir dosyanın yanına koyun; indirme adresi aşağıdaki çıktıda.",
            remedy: Remedy::Nothing,
        },
        Card::Encoder => Failure {
            tag: "Hata · kodlayıcı",
            title: "Kodlayıcı bulunamadı",
            detail: "Seçilen kodlayıcı bu cihazda yok. Cihazın listesinden birini seçin ya da kodlayıcı alanını boş bırakın.",
            remedy: Remedy::ListEncoders,
        },
        Card::Audio => Failure {
            tag: "Uyarı · ses",
            title: "Ses aktarılamıyor",
            detail: "Ses aktarımı Android 11 ve üstünü gerektirir, ve bazı cihazlar yakalamayı engeller. Sesi kapatıp yansıtmayı sürdürebilirsiniz.",
            remedy: Remedy::Nothing,
        },
        Card::FileWrite => Failure {
            tag: "Hata · kayıt",
            title: "Dosya yazılamıyor",
            detail: "Hedef klasör yazılabilir olmalı. Ayarlar'daki kayıt klasörünü değiştirin ya da izinleri düzeltin.",
            remedy: Remedy::OpenSettings,
        },
        Card::PortInUse => Failure {
            tag: "Hata · port",
            title: "Port kullanımda",
            detail: "Bu aralıktaki portlar başka bir program tarafından tutuluyor. Başka bir scrcpy açıksa kapatın ya da port aralığını değiştirin.",
            remedy: Remedy::RestartAdb,
        },
        Card::AdbDaemon => Failure {
            tag: "Hata · adb",
            title: "adb sunucusu çalışmıyor",
            detail: "Cihazlara adb sunucusu üzerinden ulaşılıyor ve şu an cevap vermiyor.",
            remedy: Remedy::RestartAdb,
        },
        Card::AdbMissing => Failure {
            tag: "Hata · adb",
            title: "adb bulunamadı",
            detail: "adb çalıştırılamadı. Ayarlar'dan tam yolunu verin ya da platform-tools paketini kurun.",
            remedy: Remedy::PickAdbPath,
        },
        Card::Generic => Failure {
            tag: "Hata",
            title: "İşlem başarısız",
            detail: "Ayrıntı aşağıdaki çıktıda. Günlük sekmesinde daha fazlası olabilir.",
            remedy: Remedy::Nothing,
        },
    }
}

/// The card for a lower-cased failure text.
pub fn card_of_lowered(lower: &str) -> (c: Card)
    ensures
        c == card_for(lower@),
{
    if str_contains(lower, "contradict") {
        Card::Contradiction
    } else if str_contains(lower, "more than one device") || str_contains(lower, "multiple devices") || str_contains(lower, "devices connected") || str_contains(lower, "use --serial") {
        Card::SeveralDevices
    } else if str_contains(lower, "no device") || str_contains(lower, "device among") {
        Card::NoDevice
    } else if str_contains(lower, "unauthorized") {
        Card::Unauthorized
    } else if str_contains(lower, "offline") || str_contains(lower, "connection closed") || str_contains(lower, "connection reset") || (str_contains(lower, "device '") && str_contains(lower, "not found")) {
        Card::Offline
    } else if str_contains(lower, "server version") || str_contains(lower, "does not match") {
        Card::VersionMismatch
    } else if str_contains(lower, "scrcpy-server not found") {
        Card::ServerMissing
    } else if str_contains(lower, "encoder") {
        Card::Encoder
    } else if str_contains(lower, "audio") {
        Card::Audio
    } else if str_contains(lower, "permission denied") || str_contains(lower, "failed to open output") || str_contains(lower, "read-only") {
        Card::FileWrite
    } else if str_contains(lower, "tunnel on ports") || str_contains(lower, "already in use") || str_contains(lower, "could not find any port") || str_contains(lower, "bind") {
        Card::PortInUse
    } else if str_contains(lower, "adb daemon") || str_contains(lower, "start-server") {
        Card::AdbDaemon
    } else if str_contains(lower, "no such file") || str_contains(lower, "program not found") || str_contains(lower, "os error 2") {
        Card::AdbMissing
    } else {
        Card::Generic
    }
}

impl Card {
    /// The words and the remedy of the card.
    pub fn failure(self) -> (f: Failure)
        ensures
            f == failure_of(self),
            f.remedy == remedy_of(self),
    {
        match self {
            Card::Contradiction => Failure {
                tag: "Hata · ayar",
                title: "Seçenekler çelişiyor",
                detail: "Sesi kapatan seçenek ile ses olmadan çıkmayı isteyen seçenek bir arada işaretli. Ses bölümünde ikisinden birini kaldırın.",
                remedy: Remedy::OpenSettings,
            },
            Card::SeveralDevices => Failure {
                tag: "Hata · cihaz",
                title: "Birden fazla cihaz bağlı",
                detail: "Hangisinin yansıtılacağı belirsiz. Cihazlar sekmesinden birini işaretleyin.",
                remedy: Remedy::Nothing,
            },
            Card::NoDevice => Failure {
                tag: "Hata · cihaz",
                title: "Cihaz bulunamadı",
                detail: "USB kablosunu takın ve cihazdaki USB hata ayıklama istemini onaylayın. Kablosuz bir cihazı Cihazlar sekmesindeki TCP/IP alanından bağlayın.",
                remedy: Remedy::RestartAdb,
            },
            Card::Unauthorized => Failure {
                tag: "Hata · yetki",
                title: "Cihaz yetkilendirilmemiş",
                detail: "Cihaz ekranındaki \"Bu bilgisayara izin ver\" istemini onaylayın. İstem çıkmıyorsa USB hata ayıklamayı kapatıp açın.",
                remedy: Remedy::RestartAdb,
            },
            Card::Offline => Failure {
                tag: "Hata · bağlantı",
                title: "Cihaz çevrimdışı",
                detail: "Bağlantı koptu. Kabloyu ve USB kipini denetleyin; kablosuz bir cihazda yeniden bağlanmak gerekebilir.",
                remedy: Remedy::Nothing,
            },
            Card::VersionMismatch => Failure {
                tag: "Hata · sürüm",
                title: "scrcpy sürümü uyumsuz",
                detail: "Cihazdaki sunucu ile istemci aynı sürüm olmalı. Ayarlar'dan bu istemcinin beklediği sürümde bir scrcpy-server seçin.",
                remedy: Remedy::OpenSettings,
            },
            Card::ServerMissing => Failure {
                tag: "Hata · sunucu",
                title: "scrcpy-server bulunamadı",
                detail: "Cihaza gönderilecek sunucu dosyası yok. scrcpy paketini kurun ya da scrcpy-server dosyasını çalıştırılabilir dosyanın yanına koyun; indirme adresi aşağıdaki çıktıda.",
                remedy: Remedy::Nothing,
            },
            Card::Encoder => Failure {
                tag: "Hata · kodlayıcı",
                title: "Kodlayıcı bulunamadı",
                detail: "Seçilen kodlayıcı bu cihazda yok. Cihazın listesinden birini seçin ya da kodlayıcı alanını boş bırakın.",
                remedy: Remedy::ListEncoders,
            },
            Card::Audio => Failure {
                tag: "Uyarı · ses",
                title: "Ses aktarılamıyor",
                detail: "Ses aktarımı Android 11 ve üstünü gerektirir, ve bazı cihazlar yakalamayı engeller. Sesi kapatıp yansıtmayı sürdürebilirsiniz.",
                remedy: Remedy::Nothing,
            },
            Card::FileWrite => Failure {
                tag: "Hata · kayıt",
                title: "Dosya yazılamıyor",
                detail: "Hedef klasör yazılabilir olmalı. Ayarlar'daki kayıt klasörünü değiştirin ya da izinleri düzeltin.",
                remedy: Remedy::OpenSettings,
            },
            Card::PortInUse => Failure {
                tag: "Hata · port",
                title: "Port kullanımda",
                detail: "Bu aralıktaki portlar başka bir program tarafından tutuluyor. Başka bir scrcpy açıksa kapatın ya da port aralığını değiştirin.",
                remedy: Remedy::RestartAdb,
            },
            Card::AdbDaemon => Failure {
                tag: "Hata · adb",
                title: "adb sunucusu çalışmıyor",
                detail: "Cihazlara adb sunucusu üzerinden ulaşılıyor ve şu an cevap vermiyor.",
                remedy: Remedy::RestartAdb,
            },
            Card::AdbMissing => Failure {
                tag: "Hata · adb",
                title: "adb bulunamadı",
                detail: "adb çalıştırılamadı. Ayarlar'dan tam yolunu verin ya da platform-tools paketini kurun.",
                remedy: Remedy::PickAdbPath,
            },
            Card::Generic => Failure {
                tag: "Hata",
                title: "İşlem başarısız",
                detail: "Ayrıntı aşağıdaki çıktıda. Günlük sekmesinde daha fazlası olabilir.",
                remedy: Remedy::Nothing,
            },
        }
    }
}

/// The card for a failure text that is already lower-cased.
pub fn classify_lowered(lower: &str) -> (f: Failure)
    ensures
        f.remedy == remedy_of(card_for(lower@)),
        f == failure_of(card_for(lower@)),
{
    card_of_lowered(lower).failure()
}

/// Match a failure against the ones this program can cause, whatever case
/// its text is in.
pub fn classify(text: &str) -> (f: Failure)
    ensures
        f == failure_of(card_for(unicode_lowercase(text@))),
        is_ascii_text(text@) ==> f == failure_of(card_for(ascii_lower(text@))),
{
    let lower = to_lowercase(text);
    classify_lowered(lower.as_str())
}

/// Matching ignores case: an ASCII text lands on the same card whether its
/// letters are upper-cased or lower-cased first (which `classify` does for
/// ASCII text, by its own contract).
pub proof fn classification_ignores_case(t: Seq<char>)
    requires
        is_ascii_text(t),
    ensures
        is_ascii_text(ascii_upper(t)),
        is_ascii_text(ascii_lower(t)),
        failure_of(card_for(ascii_lower(ascii_upper(t)))) == failure_of(card_for(ascii_lower(t))),
        failure_of(card_for(ascii_lower(ascii_lower(t)))) == failure_of(card_for(ascii_lower(t))),
{
    lemma_lower_forgets_case(t);
}

/// The card the Devices tab shows for what a scan or a session said: none
/// when it said nothing but white space, which clears the card.
pub fn failure_card(text: &str) -> (f: Option<Failure>)
    ensures
        trim(text@).len() == 0 ==> f is None,
        trim(text@).len() > 0 ==> f == Some(failure_of(card_for(unicode_lowercase(text@)))),
{
    if trimmed(text).len() == 0 {
        None
    } else {
        Some(classify(text))
    }
}


/// A failure that names an encoder is about the encoder, whatever it says
/// of audio: it never lands on the audio card, and it lands on the encoder
/// card unless a card checked before it (a contradiction, the device
/// selection, authorisation, the connection, the server's version or its
/// absence) claims it first.
pub proof fn an_encoder_failure_is_about_the_encoder(lower: Seq<char>)
    requires
        has(lower, "encoder"),
    ensures
        card_for(lower) != Card::Audio,
        !(has(lower, "contradict")) && !(has(lower, "more than one device")) && !(has(lower, "multiple devices"))
            && !(has(lower, "devices connected")) && !(has(lower, "use --serial")) && !(has(lower, "no device"))
            && !(has(lower, "device among")) && !(has(lower, "unauthorized")) && !(has(lower, "offline"))
            && !(has(lower, "connection closed")) && !(has(lower, "connection reset"))
            && !(has(lower, "device '") && has(lower, "not found")) && !(has(lower, "server version"))
            && !(has(lower, "does not match")) && !(has(lower, "scrcpy-server not found"))
            ==> card_for(lower) == Card::Encoder,
{
}

} // verus!
