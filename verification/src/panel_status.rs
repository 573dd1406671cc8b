//! The panel's own small decisions: what its log lines are, what a
//! transfer reports, what the adb status line says, which server version a
//! file name carries, what the metrics table shows, where a screenshot goes,
//! and the table of shortcuts.

use vstd::prelude::*;
use crate::text::{
    append, chars_of, decimal, digit_char, has_infix, has_prefix, owned, push_char,
    starts_with, str_contains, string_of_range, text_eq, trim,
};
use crate::options::first_index_of;
use crate::panel_command::views;
use crate::paths::{extension_of, file_name_of, find_last, last_index_of, path_extension, path_file_name};

verus! {

// ---------------------------------------------------------------------------
// Log lines
// ---------------------------------------------------------------------------

/// The level of a line a session wrote: what it says of itself.
pub open spec fn log_level_spec(line: Seq<char>) -> Seq<char> {
    if has_infix(line, "ERROR"@) {
        "ERROR"@
    } else if has_infix(line, "WARN"@) {
        "WARN"@
    } else {
        "INFO"@
    }
}

/// The level a line from a session is shown at in the log.
pub fn log_level_of(line: &str) -> (r: &'static str)
    ensures
        r@ == log_level_spec(line@),
{
    if str_contains(line, "ERROR") {
        "ERROR"
    } else if str_contains(line, "WARN") {
        "WARN"
    } else {
        "INFO"
    }
}

/// Two decimal digits, zero first where the number is below ten.
pub open spec fn two_digits(n: nat) -> Seq<char> {
    seq![digit_char(n / 10), digit_char(n % 10)]
}

/// The time of day of `secs` seconds since the epoch, as `HH:MM:SS`: the
/// panel's clock only needs to order lines, not date them.
pub open spec fn clock_stamp_spec(secs: u64) -> Seq<char> {
    let s = (secs % 86400) as nat;
    two_digits(s / 3600) + seq![':'] + two_digits((s / 60) % 60) + seq![':'] + two_digits(s % 60)
}

fn push_two_digits(s: &mut String, n: u64)
    requires
        n < 100,
    ensures
        final(s)@ == old(s)@ + two_digits(n as nat),
{
    let tens = crate::text::decimal_string(n / 10);
    let ones = crate::text::decimal_string(n % 10);
    append(s, tens.as_str());
    append(s, ones.as_str());
}

/// See `clock_stamp_spec`.
pub fn clock_stamp(secs: u64) -> (r: String)
    ensures
        r@ == clock_stamp_spec(secs),
{
    let s = secs % 86400;
    let mut r = String::new();
    push_two_digits(&mut r, s / 3600);
    push_char(&mut r, ':');
    push_two_digits(&mut r, (s / 60) % 60);
    push_char(&mut r, ':');
    push_two_digits(&mut r, s % 60);
    assert(r@ =~= clock_stamp_spec(secs));
    r
}

// ---------------------------------------------------------------------------
// Transfers
// ---------------------------------------------------------------------------

/// What one transfer did, in the words the panel shows.
pub struct Transfer {
    pub ok: bool,
    pub message: String,
    /// A file that landed in the push target, which the device should be
    /// told to index. An installed APK is not one, and neither is a failure.
    pub scanworthy: bool,
}

impl Transfer {
    /// An install that worked.
    pub fn done(message: String) -> (t: Self)
        ensures
            t.ok && !t.scanworthy && t.message == message,
    {
        Transfer { ok: true, message, scanworthy: false }
    }

    /// A push that worked.
    pub fn pushed(message: String) -> (t: Self)
        ensures
            t.ok && t.scanworthy && t.message == message,
    {
        Transfer { ok: true, message, scanworthy: true }
    }

    /// A transfer that did not.
    pub fn failed(message: String) -> (t: Self)
        ensures
            !t.ok && !t.scanworthy && t.message == message,
    {
        Transfer { ok: false, message, scanworthy: false }
    }
}

/// Whether a path names an APK: its extension is `apk` in any case.
pub open spec fn is_apk_spec(path: Seq<char>) -> bool {
    match path_extension(path) {
        Some(e) => e.len() == 3 && crate::text::ascii_lower_char(e[0]) == 'a'
            && crate::text::ascii_lower_char(e[1]) == 'p' && crate::text::ascii_lower_char(e[2]) == 'k',
        None => false,
    }
}

fn fold(c: char) -> (r: char)
    ensures
        r == crate::text::ascii_lower_char(c),
{
    if 'A' <= c && c <= 'Z' {
        ((c as u8) + 32) as char
    } else {
        c
    }
}

/// Whether a path names an APK, which is installed rather than pushed.
pub fn is_apk(path: &str) -> (b: bool)
    ensures
        b == is_apk_spec(path@),
{
    match extension_of(path) {
        Some(e) => {
            let v = chars_of(e.as_str());
            v.len() == 3 && fold(v[0]) == 'a' && fold(v[1]) == 'p' && fold(v[2]) == 'k'
        },
        None => false,
    }
}

/// What a transfer reports: a failure names what was being done, the file
/// and why; an install names the file; a push names the file and where it
/// went.
pub open spec fn transfer_message_spec(name: Seq<char>, apk: bool, failure: Option<Seq<char>>, push_target: Seq<char>) -> Seq<char> {
    match failure {
        Some(why) => (if apk { "Kurulamadı"@ } else { "Gönderilemedi"@ }) + ": "@ + name + " — "@ + why,
        None => if apk {
            "Kuruldu: "@ + name
        } else {
            "Gönderildi: "@ + name + " → "@ + push_target
        },
    }
}

/// What one transfer of the file `name` did.
pub fn transfer_report(name: &str, apk: bool, failure: Option<&str>, push_target: &str) -> (t: Transfer)
    ensures
        t.ok == failure is None,
        t.scanworthy == (failure is None && !apk),
        t.message@ == transfer_message_spec(name@, apk, match failure { Some(w) => Some(w@), None => None }, push_target@),
{
    match failure {
        Some(why) => {
            let mut m = if apk { owned("Kurulamadı") } else { owned("Gönderilemedi") };
            append(&mut m, ": ");
            append(&mut m, name);
            append(&mut m, " — ");
            append(&mut m, why);
            Transfer::failed(m)
        },
        None => if apk {
            let mut m = owned("Kuruldu: ");
            append(&mut m, name);
            Transfer::done(m)
        } else {
            let mut m = owned("Gönderildi: ");
            append(&mut m, name);
            append(&mut m, " → ");
            append(&mut m, push_target);
            Transfer::pushed(m)
        },
    }
}

/// The name a transfer is reported under: the path's file name, or nothing.
pub fn transfer_name(path: &str) -> (r: String)
    ensures
        r@ == (match path_file_name(path@) { Some(n) => n, None => Seq::<char>::empty() }),
{
    match file_name_of(path) {
        Some(n) => n,
        None => String::new(),
    }
}

// ---------------------------------------------------------------------------
// The adb status line
// ---------------------------------------------------------------------------

/// The first line of a text, as `str::lines` gives it: without the `\r` of
/// a `\r\n`; `None` for an empty text.
pub open spec fn first_line_spec(text: Seq<char>) -> Option<Seq<char>> {
    if text.len() == 0 {
        None
    } else {
        Some(match first_index_of(text, '\n') {
            Some(i) => without_cr(text.subrange(0, i)),
            None => text,
        })
    }
}

/// A line that ended in `\r\n`, without its `\r`.
pub open spec fn without_cr(l: Seq<char>) -> Seq<char> {
    if l.len() > 0 && l.last() == '\r' { l.drop_last() } else { l }
}

/// The last space-separated word of a line.
pub open spec fn last_word_spec(line: Seq<char>) -> Seq<char> {
    match last_index_of(line, ' ') {
        Some(i) => line.subrange(i + 1, line.len() as int),
        None => line,
    }
}

/// The version `adb version` reports: the last word of its first line.
pub open spec fn adb_version_spec(output: Seq<char>) -> Seq<char> {
    match first_line_spec(output) {
        Some(l) => last_word_spec(l),
        None => "?"@,
    }
}

/// The status line: the version, the daemon's port when it is not adb's
/// own default, or where adb was looked for when it did not answer.
pub open spec fn adb_status_spec(version_output: Option<Seq<char>>, port: Option<u16>, program: Seq<char>) -> Seq<char> {
    match version_output {
        Some(out) => match port {
            Some(p) => if p != 5037 {
                "adb "@ + adb_version_spec(out) + " · :"@ + decimal(p as nat) + " · hazır"@
            } else {
                "adb "@ + adb_version_spec(out) + " · hazır"@
            },
            None => "adb "@ + adb_version_spec(out) + " · hazır"@,
        },
        None => if program == "adb"@ {
            "adb bulunamadı"@
        } else {
            "adb bulunamadı: "@ + program
        },
    }
}

proof fn lemma_first_index(s: Seq<char>, i: int, c: char)
    requires
        0 <= i <= s.len(),
        forall|j: int| 0 <= j < i ==> s[j] != c,
        i < s.len() ==> s[i] == c,
    ensures
        first_index_of(s, c) == (if i < s.len() { Some(i) } else { None::<int> }),
    decreases s.len(),
{
    if s.len() > 0 && i > 0 {
        lemma_first_index(s.drop_first(), i - 1, c);
    }
}

/// See `adb_version_spec`.
pub fn adb_version(output: &str) -> (r: String)
    ensures
        r@ == adb_version_spec(output@),
{
    let v = chars_of(output);
    if v.len() == 0 {
        return owned("?");
    }
    let mut i: usize = 0;
    while i < v.len() && v[i] != '\n'
        invariant
            i <= v.len(),
            forall|j: int| 0 <= j < i ==> v@[j] != '\n',
        decreases v.len() - i,
    {
        i = i + 1;
    }
    proof {
        lemma_first_index(v@, i as int, '\n');
    }
    assert(i == v.len() ==> v@.subrange(0, i as int) =~= v@);
    let mut end = i;
    if i < v.len() && end > 0 && v[end - 1] == '\r' {
        end = end - 1;
        assert(v@.subrange(0, i as int).drop_last() =~= v@.subrange(0, end as int));
    }
    let line = string_of_range(&v, 0, end);
    let lv = chars_of(line.as_str());
    assert(lv@.subrange(0, lv@.len() as int) =~= lv@);
    match find_last(&lv, ' ') {
        Some(k) => {
            proof {
                crate::paths::lemma_last_index_bounds(lv@, ' ');
            }
            string_of_range(&lv, k + 1, lv.len())
        },
        None => line,
    }
}

/// See `adb_status_spec`.
pub fn adb_status_text(version_output: Option<&str>, port: Option<u16>, program: &str) -> (r: String)
    ensures
        r@ == adb_status_spec(match version_output { Some(o) => Some(o@), None => None }, port, program@),
{
    match version_output {
        Some(out) => {
            let version = adb_version(out);
            let mut s = owned("adb ");
            append(&mut s, version.as_str());
            match port {
                Some(p) => {
                    if p != 5037 {
                        append(&mut s, " · :");
                        let n = crate::text::decimal_string(p as u64);
                        append(&mut s, n.as_str());
                    }
                },
                None => {},
            }
            append(&mut s, " · hazır");
            s
        },
        None => {
            if text_eq(program, "adb") {
                owned("adb bulunamadı")
            } else {
                let mut s = owned("adb bulunamadı: ");
                append(&mut s, program);
                s
            }
        },
    }
}

// ---------------------------------------------------------------------------
// The server version in a file name
// ---------------------------------------------------------------------------

/// `s` without the `-`, `_` and `v` it begins with.
pub open spec fn strip_version_lead(s: Seq<char>) -> Seq<char>
    decreases s.len(),
{
    if s.len() > 0 && (s[0] == '-' || s[0] == '_' || s[0] == 'v') {
        strip_version_lead(s.drop_first())
    } else {
        s
    }
}

/// Digits and dots.
pub open spec fn is_version_char(c: char) -> bool {
    ('0' <= c <= '9') || c == '.'
}

/// The version a server file name carries: what follows `scrcpy-server` and
/// any `-`, `_` or `v`, when that is digits and dots and not nothing.
pub open spec fn server_version_spec(name: Seq<char>) -> Option<Seq<char>> {
    if has_prefix(name, "scrcpy-server"@) {
        let rest = strip_version_lead(name.subrange("scrcpy-server"@.len() as int, name.len() as int));
        if rest.len() > 0 && (forall|i: int| 0 <= i < rest.len() ==> is_version_char(#[trigger] rest[i])) {
            Some(rest)
        } else {
            None
        }
    } else {
        None
    }
}

/// The version in a server file name, when it carries one.
pub fn server_version_from_name(name: &str) -> (r: Option<String>)
    ensures
        match r {
            Some(v) => server_version_spec(name@) == Some(v@),
            None => server_version_spec(name@) is None,
        },
{
    let v = chars_of(name);
    let prefix = chars_of("scrcpy-server");
    if !starts_with(&v, &prefix) {
        return None;
    }
    let mut i = prefix.len();
    while i < v.len() && (v[i] == '-' || v[i] == '_' || v[i] == 'v')
        invariant
            prefix@.len() <= i <= v.len(),
            strip_version_lead(v@.subrange(prefix@.len() as int, v@.len() as int))
                == strip_version_lead(v@.subrange(i as int, v@.len() as int)),
        decreases v.len() - i,
    {
        assert(v@.subrange(i as int, v@.len() as int).drop_first() =~= v@.subrange(i + 1, v@.len() as int));
        i = i + 1;
    }
    let ghost rest = v@.subrange(i as int, v@.len() as int);
    assert(strip_version_lead(rest) == rest);
    assert(server_version_spec(name@) == (if rest.len() > 0 && (forall|k: int| 0 <= k < rest.len() ==> is_version_char(#[trigger] rest[k])) { Some(rest) } else { None }));
    if i == v.len() {
        return None;
    }
    let start = i;
    while i < v.len()
        invariant
            start <= i <= v.len(),
            rest == v@.subrange(start as int, v@.len() as int),
            rest.len() > 0,
            server_version_spec(name@) == (if rest.len() > 0 && (forall|k: int| 0 <= k < rest.len() ==> is_version_char(#[trigger] rest[k])) { Some(rest) } else { None }),
            forall|j: int| 0 <= j < i - start ==> is_version_char(#[trigger] rest[j]),
        decreases v.len() - i,
    {
        let c = v[i];
        if !(('0' <= c && c <= '9') || c == '.') {
            assert(rest[i - start] == c);
            assert(!is_version_char(rest[i - start]));
            return None;
        }
        i = i + 1;
    }
    Some(string_of_range(&v, start, v.len()))
}

/// The version in a server path, when its file name carries one: releases
/// are published as `scrcpy-server-v4.1`.
pub fn server_version_from_path(path: &str) -> (r: Option<String>)
    ensures
        match path_file_name(path@) {
            Some(name) => match r {
                Some(v) => server_version_spec(name) == Some(v@),
                None => server_version_spec(name) is None,
            },
            None => r is None,
        },
{
    match file_name_of(path) {
        Some(name) => server_version_from_name(name.as_str()),
        None => None,
    }
}

// ---------------------------------------------------------------------------
// Shortcuts
// ---------------------------------------------------------------------------

/// The shortcut table the panel shows: each combination and what it does.
pub open spec fn shortcut_table() -> Seq<(&'static str, &'static str)> {
    seq![
        ("MOD+q", "Oturumu kapat"),
        ("MOD+f / F11", "Tam ekranı aç/kapat"),
        ("MOD+w / çift tık", "Pencereyi görüntüye sığdır"),
        ("MOD+g", "1:1 boyut"),
        ("MOD+← / MOD+→", "Görüntüyü döndür"),
        ("MOD+Shift+← / →", "Görüntüyü yatay çevir"),
        ("MOD+Shift+↑ / ↓", "Görüntüyü dikey çevir"),
        ("MOD+z / MOD+Shift+z", "Görüntüyü dondur / çöz"),
        ("MOD+Shift+r", "Yeni bir anahtar kareden başla"),
        ("MOD+i", "Kare sayacını aç/kapat"),
        ("MOD+h", "Ana ekran"),
        ("MOD+b / MOD+Backspace", "Geri"),
        ("MOD+s", "Son uygulamalar"),
        ("MOD+m", "Menü"),
        ("MOD+p", "Güç"),
        ("MOD+↑ / MOD+↓", "Ses aç / kıs — kamerada yakınlaştır / uzaklaştır"),
        ("MOD+o / MOD+Shift+o", "Cihaz ekranını kapat / aç"),
        ("MOD+r", "Cihazı döndür"),
        ("MOD+n / MOD+Shift+n", "Bildirim panelini aç / kapat"),
        ("MOD+c / MOD+x", "Panoyu kopyala / kes"),
        ("MOD+v / MOD+Shift+v", "Panoyu yapıştır / yazdır"),
        ("MOD+k", "Klavye ayarlarını aç"),
        ("MOD+t / MOD+Shift+t", "Kamera fenerini yak / söndür"),
        ("Ctrl+sürükle", "Merkez etrafında yakınlaştır ve döndür"),
        ("Shift+sürükle", "İki parmakla yukarı aşağı kaydır"),
        ("Ctrl+Shift+sürükle", "İki parmakla sağa sola kaydır"),
        ("Sağ tık", "Geri"),
        ("Orta tık", "Ana ekran"),
        ("4. tık / 5. tık", "Son uygulamalar / bildirimler"),
    ]
}

/// The shortcut table, in the order it is shown.
pub fn shortcut_rows() -> (rows: Vec<(&'static str, &'static str)>)
    ensures
        rows@ == shortcut_table(),
{
    let mut rows: Vec<(&'static str, &'static str)> = Vec::new();
    rows.push(("MOD+q", "Oturumu kapat"));
    rows.push(("MOD+f / F11", "Tam ekranı aç/kapat"));
    rows.push(("MOD+w / çift tık", "Pencereyi görüntüye sığdır"));
    rows.push(("MOD+g", "1:1 boyut"));
    rows.push(("MOD+← / MOD+→", "Görüntüyü döndür"));
    rows.push(("MOD+Shift+← / →", "Görüntüyü yatay çevir"));
    rows.push(("MOD+Shift+↑ / ↓", "Görüntüyü dikey çevir"));
    rows.push(("MOD+z / MOD+Shift+z", "Görüntüyü dondur / çöz"));
    rows.push(("MOD+Shift+r", "Yeni bir anahtar kareden başla"));
    rows.push(("MOD+i", "Kare sayacını aç/kapat"));
    rows.push(("MOD+h", "Ana ekran"));
    rows.push(("MOD+b / MOD+Backspace", "Geri"));
    rows.push(("MOD+s", "Son uygulamalar"));
    rows.push(("MOD+m", "Menü"));
    rows.push(("MOD+p", "Güç"));
    rows.push(("MOD+↑ / MOD+↓", "Ses aç / kıs — kamerada yakınlaştır / uzaklaştır"));
    rows.push(("MOD+o / MOD+Shift+o", "Cihaz ekranını kapat / aç"));
    rows.push(("MOD+r", "Cihazı döndür"));
    rows.push(("MOD+n / MOD+Shift+n", "Bildirim panelini aç / kapat"));
    rows.push(("MOD+c / MOD+x", "Panoyu kopyala / kes"));
    rows.push(("MOD+v / MOD+Shift+v", "Panoyu yapıştır / yazdır"));
    rows.push(("MOD+k", "Klavye ayarlarını aç"));
    rows.push(("MOD+t / MOD+Shift+t", "Kamera fenerini yak / söndür"));
    rows.push(("Ctrl+sürükle", "Merkez etrafında yakınlaştır ve döndür"));
    rows.push(("Shift+sürükle", "İki parmakla yukarı aşağı kaydır"));
    rows.push(("Ctrl+Shift+sürükle", "İki parmakla sağa sola kaydır"));
    rows.push(("Sağ tık", "Geri"));
    rows.push(("Orta tık", "Ana ekran"));
    rows.push(("4. tık / 5. tık", "Son uygulamalar / bildirimler"));
    assert(rows@ =~= shortcut_table());
    rows
}

// ---------------------------------------------------------------------------
// The server version check
// ---------------------------------------------------------------------------

/// What the check of the server file at launch found.
#[derive(Debug, Clone, Copy, PartialEq, Eq, Structural)]
pub enum ServerCheck {
    /// Its name carries the version this client needs.
    Ready,
    /// Its name carries another version: the session would be refused.
    Mismatch,
    /// Its name carries no version, which a jar keeps inside itself.
    Unknown,
}

/// See `ServerCheck`.
pub fn server_check(found: Option<&str>, required: &str) -> (c: ServerCheck)
    ensures
        c == match found {
            Some(v) => if v@ == required@ { ServerCheck::Ready } else { ServerCheck::Mismatch },
            None => ServerCheck::Unknown,
        },
{
    match found {
        Some(v) => if text_eq(v, required) { ServerCheck::Ready } else { ServerCheck::Mismatch },
        None => ServerCheck::Unknown,
    }
}

/// The version the settings show: the one found, else the one needed.
pub fn shown_server_version(found: Option<&str>, required: &str) -> (r: String)
    ensures
        r@ == match found {
            Some(v) => v@,
            None => required@,
        },
{
    match found {
        Some(v) => owned(v),
        None => owned(required),
    }
}

// ---------------------------------------------------------------------------
// The metrics table
// ---------------------------------------------------------------------------

/// A number in at least two digits, zero first.
pub open spec fn two_or_more_digits(n: nat) -> Seq<char> {
    if n < 10 { seq!['0'] + decimal(n) } else { decimal(n) }
}

/// How long a session has run, as minutes and seconds.
pub open spec fn duration_spec(secs: u64) -> Seq<char> {
    two_or_more_digits((secs / 60) as nat) + seq![':'] + two_or_more_digits((secs % 60) as nat)
}

fn push_two_or_more(s: &mut String, n: u64)
    ensures
        final(s)@ == old(s)@ + two_or_more_digits(n as nat),
{
    if n < 10 {
        push_char(s, '0');
    }
    let d = crate::text::decimal_string(n);
    append(s, d.as_str());
}

/// See `duration_spec`.
pub fn metric_duration(secs: u64) -> (r: String)
    ensures
        r@ == duration_spec(secs),
{
    let mut s = String::new();
    push_two_or_more(&mut s, secs / 60);
    push_char(&mut s, ':');
    push_two_or_more(&mut s, secs % 60);
    assert(s@ =~= duration_spec(secs));
    s
}

/// The picture's size, as the table shows it.
pub fn metric_resolution(width: u32, height: u32) -> (r: String)
    ensures
        r@ == decimal(width as nat) + " × "@ + decimal(height as nat),
{
    let mut s = crate::text::decimal_string(width as u64);
    append(&mut s, " × ");
    let h = crate::text::decimal_string(height as u64);
    append(&mut s, h.as_str());
    s
}

/// The codecs, as the table shows them: the video one alone when there is
/// no audio.
pub fn metric_codecs(video: &str, audio: &str, no_audio: bool) -> (r: String)
    ensures
        r@ == (if no_audio { video@ } else { video@ + " + "@ + audio@ }),
{
    let mut s = owned(video);
    if !no_audio {
        append(&mut s, " + ");
        append(&mut s, audio);
    }
    s
}

/// The rotation, as the table shows it.
pub fn metric_rotation(degrees: u16) -> (r: String)
    ensures
        r@ == decimal(degrees as nat) + "°"@,
{
    let mut s = crate::text::decimal_string(degrees as u64);
    append(&mut s, "°");
    s
}

// ---------------------------------------------------------------------------
// Screenshots
// ---------------------------------------------------------------------------

/// Where a screenshot taken at `stamp` goes: the folder from the settings,
/// else the home directory's Pictures, else here.
pub open spec fn screenshot_path_spec(directory: Seq<char>, home: Option<Seq<char>>, stamp: u64) -> Seq<char> {
    let dir = if directory.len() > 0 {
        directory
    } else {
        match home {
            Some(h) => h + "/Pictures"@,
            None => "."@,
        }
    };
    dir + "/scrcpy-"@ + decimal(stamp as nat) + ".png"@
}

/// The folder a screenshot goes in; see `screenshot_path_spec`.
pub fn screenshot_dir(directory: &str, home: Option<&str>) -> (r: String)
    ensures
        r@ == (if directory@.len() > 0 {
            directory@
        } else {
            match home {
                Some(h) => h@ + "/Pictures"@,
                None => "."@,
            }
        }),
{
    if chars_of(directory).len() > 0 {
        owned(directory)
    } else {
        match home {
            Some(h) => {
                let mut s = owned(h);
                append(&mut s, "/Pictures");
                s
            },
            None => owned("."),
        }
    }
}

/// See `screenshot_path_spec`.
pub fn screenshot_path(directory: &str, home: Option<&str>, stamp: u64) -> (r: String)
    ensures
        r@ == screenshot_path_spec(directory@, match home { Some(h) => Some(h@), None => None }, stamp),
{
    let mut s = screenshot_dir(directory, home);
    append(&mut s, "/scrcpy-");
    let n = crate::text::decimal_string(stamp);
    append(&mut s, n.as_str());
    append(&mut s, ".png");
    s
}

// ---------------------------------------------------------------------------
// What a query printed
// ---------------------------------------------------------------------------

/// Where `first_index_of` lands: on `c`, with no `c` before it.
pub proof fn lemma_first_index_bounds(s: Seq<char>, c: char)
    ensures
        first_index_of(s, c) matches Some(i) ==> 0 <= i < s.len() && s[i] == c
            && forall|j: int| 0 <= j < i ==> s[j] != c,
        first_index_of(s, c) is None ==> forall|j: int| 0 <= j < s.len() ==> s[j] != c,
    decreases s.len(),
{
    if s.len() > 0 && s[0] != c {
        lemma_first_index_bounds(s.drop_first(), c);
        assert forall|j: int| 1 <= j < s.len() implies s[j] == s.drop_first()[j - 1] by {}
    }
}

/// The lines of a text, as `str::lines` splits it: at each `\n`, without
/// the `\r` of a `\r\n`, and no empty line after a final newline.
pub open spec fn lines_spec(text: Seq<char>) -> Seq<Seq<char>>
    decreases text.len(),
{
    if text.len() == 0 {
        Seq::empty()
    } else {
        match first_index_of(text, '\n') {
            Some(i) => {
                proof {
                    lemma_first_index_bounds(text, '\n');
                }
                seq![without_cr(text.subrange(0, i))] + lines_spec(text.subrange(i + 1, text.len() as int))
            },
            None => seq![text],
        }
    }
}

/// See `lines_spec`.
pub fn split_lines(text: &str) -> (r: Vec<String>)
    ensures
        views(r@) == lines_spec(text@),
{
    let v = chars_of(text);
    let mut out: Vec<String> = Vec::new();
    let mut p: usize = 0;
    assert(v@.subrange(0, v@.len() as int) =~= v@);
    while p < v.len()
        invariant
            p <= v@.len(),
            v@ == text@,
            views(out@) + lines_spec(v@.subrange(p as int, v@.len() as int)) == lines_spec(v@),
        decreases v.len() - p,
    {
        let ghost rest = v@.subrange(p as int, v@.len() as int);
        let mut i = p;
        while i < v.len() && v[i] != '\n'
            invariant
                p <= i <= v@.len(),
                forall|j: int| p <= j < i ==> v@[j] != '\n',
            decreases v.len() - i,
        {
            i = i + 1;
        }
        proof {
            lemma_first_index(rest, i - p, '\n');
        }
        let ghost before = views(out@);
        if i < v.len() {
            let mut end = i;
            if end > p && v[end - 1] == '\r' {
                end = end - 1;
            }
            let line = string_of_range(&v, p, end);
            assert(line@ == without_cr(rest.subrange(0, i - p)));
            out.push(line);
            assert(rest.subrange(i - p + 1, rest.len() as int) =~= v@.subrange(i + 1, v@.len() as int));
            assert(views(out@) =~= before.push(without_cr(rest.subrange(0, i - p))));
            assert(before + lines_spec(rest) =~= views(out@) + lines_spec(v@.subrange(i + 1, v@.len() as int)));
            p = i + 1;
        } else {
            let line = string_of_range(&v, p, v.len());
            out.push(line);
            assert(views(out@) =~= before.push(rest));
            assert(v@.subrange(v@.len() as int, v@.len() as int) =~= Seq::<char>::empty());
            assert(before + lines_spec(rest) =~= views(out@) + lines_spec(v@.subrange(v@.len() as int, v@.len() as int)));
            p = v.len();
        }
    }
    assert(views(out@) + lines_spec(v@.subrange(p as int, v@.len() as int)) =~= views(out@));
    out
}

/// The lines of `lines` that say something.
pub open spec fn non_blank(lines: Seq<Seq<char>>) -> Seq<Seq<char>>
    decreases lines.len(),
{
    if lines.len() == 0 {
        Seq::empty()
    } else if trim(lines.last()).len() > 0 {
        non_blank(lines.drop_last()).push(lines.last())
    } else {
        non_blank(lines.drop_last())
    }
}

/// What a `--list-…` query printed that goes in the log: every line of its
/// output, then of its errors, that is not blank.
pub fn query_log_lines(stdout: &str, stderr: &str) -> (r: Vec<String>)
    ensures
        views(r@) == non_blank(lines_spec(stdout@) + lines_spec(stderr@)),
{
    let mut all = split_lines(stdout);
    let mut err = split_lines(stderr);
    let ghost a = views(all@);
    let ghost b = views(err@);
    all.append(&mut err);
    assert(views(all@) =~= a + b);
    let mut out: Vec<String> = Vec::new();
    let mut i: usize = 0;
    while i < all.len()
        invariant
            i <= all@.len(),
            views(out@) == non_blank(views(all@).subrange(0, i as int)),
        decreases all.len() - i,
    {
        assert(views(all@).subrange(0, i + 1).drop_last() =~= views(all@).subrange(0, i as int));
        if crate::text::trimmed(all[i].as_str()).len() > 0 {
            let ghost before = views(out@);
            out.push(owned(all[i].as_str()));
            assert(views(out@) =~= before.push(all@[i as int]@));
        }
        i = i + 1;
    }
    assert(views(all@).subrange(0, all@.len() as int) =~= views(all@));
    out
}

/// The arguments a `--list-…` query is run with: the flag, and the device
/// when one is chosen.
pub fn query_args(flag: &str, serial: &str) -> (r: Vec<String>)
    ensures
        views(r@) == if serial@.len() > 0 { seq![flag@, "--serial"@, serial@] } else { seq![flag@] },
{
    let mut r: Vec<String> = Vec::new();
    r.push(owned(flag));
    if chars_of(serial).len() > 0 {
        r.push(owned("--serial"));
        r.push(owned(serial));
    }
    assert(views(r@) =~= if serial@.len() > 0 { seq![flag@, "--serial"@, serial@] } else { seq![flag@] });
    r
}

/// The line a transfer leaves in the log: a failure is marked as one.
pub fn report_line(t: &Transfer) -> (r: String)
    ensures
        r@ == (if t.ok { t.message@ } else { "ERROR "@ + t.message@ }),
{
    if t.ok {
        owned(t.message.as_str())
    } else {
        let mut s = owned("ERROR ");
        append(&mut s, t.message.as_str());
        s
    }
}

/// Whether a batch of transfers asks the device to index the push target:
/// once, if any file was pushed rather than installed.
pub fn batch_scan(transfers: &Vec<Transfer>) -> (b: bool)
    ensures
        b == exists|i: int| 0 <= i < transfers@.len() && (#[trigger] transfers@[i]).ok && transfers@[i].scanworthy,
{
    let mut i: usize = 0;
    while i < transfers.len()
        invariant
            i <= transfers@.len(),
            forall|j: int| 0 <= j < i ==> !((#[trigger] transfers@[j]).ok && transfers@[j].scanworthy),
        decreases transfers.len() - i,
    {
        if transfers[i].ok && transfers[i].scanworthy {
            assert(transfers@[i as int].ok && transfers@[i as int].scanworthy);
            return true;
        }
        i = i + 1;
    }
    false
}

/// What becomes of the clipboard button.
#[derive(Debug, Clone, Copy, PartialEq, Eq, Structural)]
pub enum ClipboardSend {
    /// The clipboard setting only lets the device's clipboard out.
    NotThisWay,
    /// There is nothing on the computer's clipboard.
    Empty,
    /// A camera is being mirrored, which has no clipboard.
    Camera,
    /// Only an embedded session has a control channel to send on.
    NoSession,
    /// Send it.
    Send,
}

/// See `ClipboardSend`, in the order the checks are made.
pub fn clipboard_send(to_device_allowed: bool, text_empty: bool, camera: bool, has_controller: bool) -> (r: ClipboardSend)
    ensures
        r == (if !to_device_allowed {
            ClipboardSend::NotThisWay
        } else if text_empty {
            ClipboardSend::Empty
        } else if camera {
            ClipboardSend::Camera
        } else if !has_controller {
            ClipboardSend::NoSession
        } else {
            ClipboardSend::Send
        }),
{
    if !to_device_allowed {
        ClipboardSend::NotThisWay
    } else if text_empty {
        ClipboardSend::Empty
    } else if camera {
        ClipboardSend::Camera
    } else if !has_controller {
        ClipboardSend::NoSession
    } else {
        ClipboardSend::Send
    }
}

/// The language the panel's own strings are written in.
pub const SOURCE_LANGUAGE: &'static str = "tr";

/// The bundled translation to select for a language: none for the language
/// the strings are already in.
pub fn bundled_translation(language: &str) -> (r: &str)
    ensures
        r@ == (if language@ == SOURCE_LANGUAGE@ { ""@ } else { language@ }),
{
    if text_eq(language, SOURCE_LANGUAGE) { "" } else { language }
}

} // verus!
