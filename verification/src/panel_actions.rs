//! What the control panel's buttons decide, apart from the widgets they
//! update: the devices ticked, how a launch is made, what a device key
//! sends, the saved forms, the recording switch.

use vstd::prelude::*;
use crate::options::Options;
use crate::panel_command::{views, PanelConfig};
use crate::text::{append, chars_of, contains_char, decimal_string, decimal, has_char, has_prefix, owned, starts_with, text_eq};

verus! {

// ---------------------------------------------------------------------------
// The devices ticked
// ---------------------------------------------------------------------------

/// Clicking a device's row: it is unticked if it was ticked, and ticked,
/// at the end of the selection, if it was not.
pub open spec fn toggle_spec(s: Seq<Seq<char>>, x: Seq<char>) -> Seq<Seq<char>> {
    if s.contains(x) {
        s.remove_value(x)
    } else {
        s.push(x)
    }
}

/// Where `x` first occurs in `s`, if it does: at `i`, and nowhere before.
proof fn lemma_first_index(s: Seq<Seq<char>>, x: Seq<char>, i: int)
    requires
        0 <= i < s.len(),
        s[i] == x,
        forall|j: int| 0 <= j < i ==> s[j] != x,
    ensures
        s.contains(x),
        s.index_of_first(x) == Some(i),
        s.remove_value(x) == s.remove(i),
{
    s.index_of_first_ensures(x);
    assert(s[i] == x);
}

/// The position of `serial` among `selected`.
fn find_serial(selected: &Vec<String>, serial: &str) -> (r: Option<usize>)
    ensures
        match r {
            Some(i) => {
                &&& i < selected@.len()
                &&& views(selected@).contains(serial@)
                &&& views(selected@).remove_value(serial@) == views(selected@).remove(i as int)
            },
            None => !views(selected@).contains(serial@),
        },
{
    let mut i: usize = 0;
    while i < selected.len()
        invariant
            i <= selected@.len(),
            forall|j: int| 0 <= j < i ==> views(selected@)[j] != serial@,
        decreases selected.len() - i,
    {
        if text_eq(selected[i].as_str(), serial) {
            proof {
                lemma_first_index(views(selected@), serial@, i as int);
            }
            return Some(i);
        }
        i = i + 1;
    }
    None
}

/// See `toggle_spec`; whether the device is now ticked.
pub fn toggle_device(selected: &mut Vec<String>, serial: &str) -> (added: bool)
    ensures
        views(final(selected)@) == toggle_spec(views(old(selected)@), serial@),
        added == !views(old(selected)@).contains(serial@),
{
    match find_serial(selected, serial) {
        Some(i) => {
            let ghost before = selected@;
            selected.remove(i);
            assert(views(selected@) =~= views(before).remove(i as int));
            false
        },
        None => {
            let ghost before = selected@;
            selected.push(owned(serial));
            assert(views(selected@) =~= views(before).push(serial@));
            true
        },
    }
}

/// A device clicked twice is back where it was: unticked again if it was
/// not ticked, and ticked again, now at the end, if it was ticked. And no
/// device is ever ticked twice.
pub proof fn a_second_click_undoes_the_first(s: Seq<Seq<char>>, x: Seq<char>)
    ensures
        !s.contains(x) ==> toggle_spec(toggle_spec(s, x), x) == s,
        s.contains(x) && !s.remove_value(x).contains(x) ==> toggle_spec(toggle_spec(s, x), x) == s.remove_value(x).push(x),
        s.no_duplicates() ==> toggle_spec(s, x).no_duplicates(),
{
    if !s.contains(x) {
        let t = s.push(x);
        assert(t[s.len() as int] == x);
        assert(forall|j: int| 0 <= j < s.len() ==> t[j] == s[j]);
        lemma_first_index(t, x, s.len() as int);
        assert(t.remove(s.len() as int) =~= s);
    } else {
        s.index_of_first_ensures(x);
        let i = s.index_of_first(x).unwrap();
        let t = s.remove(i);
        assert(s.remove_value(x) == t);
        if s.no_duplicates() {
            assert forall|a: int, b: int| 0 <= a < t.len() && 0 <= b < t.len() && a != b implies t[a] != t[b] by {
                let sa = if a < i { a } else { a + 1 };
                let sb = if b < i { b } else { b + 1 };
                assert(t[a] == s[sa]);
                assert(t[b] == s[sb]);
            }
        }
    }
}

/// The ticked devices that are still connected, in the order they were
/// ticked: a rescan keeps the ticks of the devices it finds again.
pub open spec fn still_present(s: Seq<Seq<char>>, present: Seq<Seq<char>>) -> Seq<Seq<char>>
    decreases s.len(),
{
    if s.len() == 0 {
        Seq::empty()
    } else if present.contains(s.last()) {
        still_present(s.drop_last(), present).push(s.last())
    } else {
        still_present(s.drop_last(), present)
    }
}

/// See `still_present`.
pub fn keep_present(selected: Vec<String>, present: &Vec<String>) -> (r: Vec<String>)
    ensures
        views(r@) == still_present(views(selected@), views(present@)),
{
    let mut out: Vec<String> = Vec::new();
    let mut i: usize = 0;
    while i < selected.len()
        invariant
            i <= selected@.len(),
            views(out@) == still_present(views(selected@).subrange(0, i as int), views(present@)),
        decreases selected.len() - i,
    {
        assert(views(selected@).subrange(0, i + 1).drop_last() =~= views(selected@).subrange(0, i as int));
        let found = find_serial(present, selected[i].as_str());
        if found.is_some() {
            let ghost before = out@;
            out.push(owned(selected[i].as_str()));
            assert(views(out@) =~= views(before).push(selected@[i as int]@));
        }
        i = i + 1;
    }
    assert(views(selected@).subrange(0, selected@.len() as int) =~= views(selected@));
    out
}

/// What the panel calls the selection.
pub open spec fn selection_label_spec(s: Seq<Seq<char>>) -> Seq<char> {
    if s.len() == 0 {
        "cihaz seçilmedi"@
    } else if s.len() == 1 {
        s[0]
    } else {
        decimal(s.len()) + " cihaz seçildi"@
    }
}

/// See `selection_label_spec`.
pub fn selection_label(selected: &Vec<String>) -> (r: String)
    ensures
        r@ == selection_label_spec(views(selected@)),
{
    if selected.len() == 0 {
        owned("cihaz seçilmedi")
    } else if selected.len() == 1 {
        owned(selected[0].as_str())
    } else {
        let mut s = decimal_string(selected.len() as u64);
        append(&mut s, " cihaz seçildi");
        s
    }
}

/// The serial the form is pointed at: the first device ticked, or none.
pub fn form_serial(selected: &Vec<String>) -> (r: String)
    ensures
        r@ == (if selected@.len() > 0 { selected@[0]@ } else { Seq::<char>::empty() }),
{
    if selected.len() > 0 {
        owned(selected[0].as_str())
    } else {
        String::new()
    }
}

// ---------------------------------------------------------------------------
// Launching
// ---------------------------------------------------------------------------

/// How Başlat starts a session.
#[derive(Debug, Clone, Copy, PartialEq, Eq, Structural)]
pub enum LaunchPlan {
    /// A session is already running: nothing is started.
    AlreadyRunning,
    /// In the panel's own session tab.
    Embedded,
    /// As a second copy of this program, in a window of its own.
    Windowed,
    /// One window per ticked device; `explain` when an embedded mirror was
    /// asked for, which has only one place to draw.
    WindowPerDevice { explain: bool },
}

/// See `LaunchPlan`: with no device ticked the client picks the only one
/// connected itself.
pub open spec fn launch_plan_spec(running: bool, devices: nat, embedded_wanted: bool) -> LaunchPlan {
    if running {
        LaunchPlan::AlreadyRunning
    } else if devices <= 1 {
        if embedded_wanted { LaunchPlan::Embedded } else { LaunchPlan::Windowed }
    } else {
        LaunchPlan::WindowPerDevice { explain: embedded_wanted }
    }
}

/// See `launch_plan_spec`.
pub fn launch_plan(running: bool, devices: usize, embedded_wanted: bool) -> (p: LaunchPlan)
    ensures
        p == launch_plan_spec(running, devices as nat, embedded_wanted),
{
    if running {
        LaunchPlan::AlreadyRunning
    } else if devices <= 1 {
        if embedded_wanted { LaunchPlan::Embedded } else { LaunchPlan::Windowed }
    } else {
        LaunchPlan::WindowPerDevice { explain: embedded_wanted }
    }
}

/// The flags of `args` other than `--serial=` ones, in order.
pub open spec fn without_serial_flags(args: Seq<Seq<char>>) -> Seq<Seq<char>>
    decreases args.len(),
{
    if args.len() == 0 {
        Seq::empty()
    } else if has_prefix(args.last(), "--serial="@) {
        without_serial_flags(args.drop_last())
    } else {
        without_serial_flags(args.drop_last()).push(args.last())
    }
}

/// See `without_serial_flags`: the client's arguments for one of several
/// devices, which end in that device's `--serial`.
pub fn device_args(args: Vec<String>, serial: &str) -> (r: Vec<String>)
    ensures
        views(r@) == without_serial_flags(views(args@)).push("--serial="@ + serial@),
{
    let prefix = chars_of("--serial=");
    let mut out: Vec<String> = Vec::new();
    let mut i: usize = 0;
    while i < args.len()
        invariant
            i <= args@.len(),
            prefix@ == "--serial="@,
            views(out@) == without_serial_flags(views(args@).subrange(0, i as int)),
        decreases args.len() - i,
    {
        assert(views(args@).subrange(0, i + 1).drop_last() =~= views(args@).subrange(0, i as int));
        let v = chars_of(args[i].as_str());
        if !starts_with(&v, &prefix) {
            let ghost before = out@;
            out.push(owned(args[i].as_str()));
            assert(views(out@) =~= views(before).push(args@[i as int]@));
        }
        i = i + 1;
    }
    assert(views(args@).subrange(0, args@.len() as int) =~= views(args@));
    let ghost before = out@;
    let mut flag = owned("--serial=");
    append(&mut flag, serial);
    out.push(flag);
    assert(views(out@) =~= views(before).push("--serial="@ + serial@));
    out
}

/// Whether a session's keyboard or mouse goes through a virtual HID device,
/// which needs the panel's own input backend.
pub fn wants_uhid(o: &Options) -> (b: bool)
    ensures
        b == (o.keyboard@ == "uhid"@ || o.keyboard@ == "aoa"@ || o.mouse@ == "uhid"@ || o.mouse@ == "aoa"@),
{
    text_eq(o.keyboard.as_str(), "uhid") || text_eq(o.keyboard.as_str(), "aoa")
        || text_eq(o.mouse.as_str(), "uhid") || text_eq(o.mouse.as_str(), "aoa")
}

/// What the watch on separate windows says when it finds some closed.
#[derive(Debug, Clone, Copy, PartialEq, Eq, Structural)]
pub enum WindowsWatch {
    /// Every window is gone: the session is over.
    AllClosed,
    /// Some are gone, this many go on.
    SomeClosed(usize),
    /// Nothing changed.
    Unchanged,
}

/// See `WindowsWatch`.
pub fn windows_watch(before: usize, after: usize) -> (w: WindowsWatch)
    ensures
        w == (if after == 0 && before > 0 {
            WindowsWatch::AllClosed
        } else if after < before {
            WindowsWatch::SomeClosed(after)
        } else {
            WindowsWatch::Unchanged
        }),
{
    if after == 0 && before > 0 {
        WindowsWatch::AllClosed
    } else if after < before {
        WindowsWatch::SomeClosed(after)
    } else {
        WindowsWatch::Unchanged
    }
}

/// What the session tab says under a windowed session's title.
pub open spec fn windowed_meta_spec(codec: Seq<char>, windows: nat) -> Seq<char> {
    codec + " · ayrı pencere"@ + if windows > 1 { " ×"@ + decimal(windows) } else { Seq::empty() }
}

/// See `windowed_meta_spec`.
pub fn windowed_meta(codec: &str, windows: usize) -> (r: String)
    ensures
        r@ == windowed_meta_spec(codec@, windows as nat),
{
    let mut s = owned(codec);
    append(&mut s, " · ayrı pencere");
    if windows > 1 {
        append(&mut s, " ×");
        let n = decimal_string(windows as u64);
        append(&mut s, n.as_str());
    }
    s
}

/// What a finished device scan does about starting a session by itself.
#[derive(Debug, Clone, Copy, PartialEq, Eq, Structural)]
pub enum Autostart {
    /// No usable device: whatever comes back next is new.
    Forget,
    /// Nothing: switched off, already started for this device, or a session
    /// is running.
    Nothing,
    /// It would start, but no profile is saved: said once per device.
    NoProfile,
    /// Start a session with the first profile.
    Start,
}

/// Autostart, as a function of the device the scan found usable, the
/// setting, the device it last fired for, whether a session runs and
/// whether a profile is saved: the device it has now fired for, and what to
/// do.
pub open spec fn autostart_spec(
    ready: Option<Seq<char>>,
    enabled: bool,
    fired_for: Option<Seq<char>>,
    running: bool,
    has_profile: bool,
) -> (Option<Seq<char>>, Autostart) {
    match ready {
        None => (None, Autostart::Forget),
        Some(serial) => if !enabled || fired_for == Some(serial) || running {
            (fired_for, Autostart::Nothing)
        } else if has_profile {
            (Some(serial), Autostart::Start)
        } else {
            (Some(serial), Autostart::NoProfile)
        },
    }
}

/// See `autostart_spec`.
pub fn autostart(
    ready: Option<&str>,
    enabled: bool,
    fired_for: Option<String>,
    running: bool,
    has_profile: bool,
) -> (r: (Option<String>, Autostart))
    ensures
        (match r.0 { Some(s) => Some(s@), None => None }, r.1) == autostart_spec(
            match ready { Some(s) => Some(s@), None => None },
            enabled,
            match fired_for { Some(s) => Some(s@), None => None },
            running,
            has_profile,
        ),
{
    match ready {
        None => (None, Autostart::Forget),
        Some(serial) => {
            let same = match &fired_for {
                Some(f) => text_eq(f.as_str(), serial),
                None => false,
            };
            if !enabled || same || running {
                (fired_for, Autostart::Nothing)
            } else if has_profile {
                (Some(owned(serial)), Autostart::Start)
            } else {
                (Some(owned(serial)), Autostart::NoProfile)
            }
        },
    }
}

/// A device is started on by itself once while it stays connected: a
/// second scan that finds it again does nothing, and only a scan that finds
/// no usable device lets the next one fire again.
pub proof fn autostart_fires_once_per_connection(serial: Seq<char>, fired_for: Option<Seq<char>>, has_profile: bool)
    ensures
        ({
            let (after, _) = autostart_spec(Some(serial), true, fired_for, false, has_profile);
            autostart_spec(Some(serial), true, after, false, has_profile).1 == Autostart::Nothing
        }),
        ({
            let (gone, _) = autostart_spec(None, true, Some(serial), false, has_profile);
            autostart_spec(Some(serial), true, gone, false, has_profile).1 != Autostart::Nothing
        }),
{
}

/// What becomes of the tray icon when the setting is looked at again.
#[derive(Debug, Clone, Copy, PartialEq, Eq, Structural)]
pub enum TrayAction {
    /// Not wanted: the icon is taken out, if there is one.
    Remove,
    /// Wanted and there already.
    Keep,
    /// Wanted and not there yet.
    Create,
}

/// See `TrayAction`.
pub fn tray_action(wanted: bool, present: bool) -> (a: TrayAction)
    ensures
        a == (if !wanted { TrayAction::Remove } else if present { TrayAction::Keep } else { TrayAction::Create }),
{
    if !wanted {
        TrayAction::Remove
    } else if present {
        TrayAction::Keep
    } else {
        TrayAction::Create
    }
}

// ---------------------------------------------------------------------------
// The device's own keys, and connecting over the network
// ---------------------------------------------------------------------------

/// What a device key button does.
#[derive(Debug, Clone, Copy, PartialEq, Eq)]
pub enum DeviceKey {
    /// An Android key event, sent through adb.
    Send(&'static str),
    /// Rotation, which is the mirror window's to do.
    Rotate,
    /// A button nobody knows.
    Unknown,
}

/// The key event each button sends.
pub open spec fn device_key_spec(key: Seq<char>) -> DeviceKey {
    if key == "back"@ {
        DeviceKey::Send("KEYCODE_BACK")
    } else if key == "home"@ {
        DeviceKey::Send("KEYCODE_HOME")
    } else if key == "apps"@ {
        DeviceKey::Send("KEYCODE_APP_SWITCH")
    } else if key == "notifications"@ {
        DeviceKey::Send("KEYCODE_NOTIFICATION")
    } else if key == "volume-down"@ {
        DeviceKey::Send("KEYCODE_VOLUME_DOWN")
    } else if key == "volume-up"@ {
        DeviceKey::Send("KEYCODE_VOLUME_UP")
    } else if key == "power"@ {
        DeviceKey::Send("KEYCODE_POWER")
    } else if key == "rotate"@ {
        DeviceKey::Rotate
    } else {
        DeviceKey::Unknown
    }
}

/// See `device_key_spec`.
pub fn device_key(key: &str) -> (k: DeviceKey)
    ensures
        k == device_key_spec(key@),
{
    if text_eq(key, "back") {
        DeviceKey::Send("KEYCODE_BACK")
    } else if text_eq(key, "home") {
        DeviceKey::Send("KEYCODE_HOME")
    } else if text_eq(key, "apps") {
        DeviceKey::Send("KEYCODE_APP_SWITCH")
    } else if text_eq(key, "notifications") {
        DeviceKey::Send("KEYCODE_NOTIFICATION")
    } else if text_eq(key, "volume-down") {
        DeviceKey::Send("KEYCODE_VOLUME_DOWN")
    } else if text_eq(key, "volume-up") {
        DeviceKey::Send("KEYCODE_VOLUME_UP")
    } else if text_eq(key, "power") {
        DeviceKey::Send("KEYCODE_POWER")
    } else if text_eq(key, "rotate") {
        DeviceKey::Rotate
    } else {
        DeviceKey::Unknown
    }
}

/// The address `adb connect` is given: as typed when it names a port, else
/// on adb's own port 5555; nothing when nothing was typed.
pub open spec fn connect_address_spec(addr: Seq<char>) -> Option<Seq<char>> {
    if addr.len() == 0 {
        None
    } else if has_char(addr, ':') {
        Some(addr)
    } else {
        Some(addr + ":5555"@)
    }
}

/// See `connect_address_spec`.
pub fn connect_address(addr: &str) -> (r: Option<String>)
    ensures
        match r {
            Some(a) => connect_address_spec(addr@) == Some(a@),
            None => connect_address_spec(addr@) is None,
        },
{
    let v = chars_of(addr);
    if v.len() == 0 {
        None
    } else if contains_char(&v, ':') {
        Some(owned(addr))
    } else {
        let mut s = owned(addr);
        append(&mut s, ":5555");
        Some(s)
    }
}

/// Whether the device has to be switched to adb over the network first:
/// only one on USB, whose serial names no address.
pub fn needs_tcpip_switch(serial: &str) -> (b: bool)
    ensures
        b == !has_char(serial@, ':'),
{
    let v = chars_of(serial);
    !contains_char(&v, ':')
}

// ---------------------------------------------------------------------------
// Recording
// ---------------------------------------------------------------------------

/// The recording button: the switch flips, and a recording switched on with
/// no file named gets one, without a timestamp of its own since the
/// timestamp checkbox adds that.
pub fn record_toggle(was_on: bool, path: &str) -> (r: (bool, Option<&'static str>))
    ensures
        r.0 == !was_on,
        r.1 == (if !was_on && path@.len() == 0 { Some("scrcpy.mp4") } else { None::<&'static str> }),
{
    let on = !was_on;
    if on && chars_of(path).len() == 0 {
        (on, Some("scrcpy.mp4"))
    } else {
        (on, None)
    }
}

/// The container a recording started mid-session is written in: none is
/// named for mp4, which is the default.
pub fn record_format_arg(format: &str) -> (r: Option<String>)
    ensures
        match r {
            Some(f) => format@ != "mp4"@ && f@ == format@,
            None => format@ == "mp4"@,
        },
{
    if text_eq(format, "mp4") {
        None
    } else {
        Some(owned(format))
    }
}

// ---------------------------------------------------------------------------
// Saved forms
// ---------------------------------------------------------------------------

/// A saved form.
pub struct Profile {
    pub name: String,
    pub description: String,
    pub config: PanelConfig,
}

/// The saved forms, and the one the form is being edited from.
pub struct ProfileBook {
    profiles: Vec<Profile>,
    editing: Option<usize>,
}

/// The line under a profile's name.
pub open spec fn profile_description_spec(flags: nat, codec: Seq<char>) -> Seq<char> {
    decimal(flags) + " bayrak · "@ + codec
}

/// See `profile_description_spec`.
pub fn profile_description(flags: usize, codec: &str) -> (r: String)
    ensures
        r@ == profile_description_spec(flags as nat, codec@),
{
    let mut s = decimal_string(flags as u64);
    append(&mut s, " bayrak · ");
    append(&mut s, codec);
    s
}

impl ProfileBook {
    /// The profiles, in order.
    pub closed spec fn profiles(&self) -> Seq<Profile> {
        self.profiles@
    }

    /// The profile the form was opened from for editing.
    pub closed spec fn editing(&self) -> Option<usize> {
        self.editing
    }

    /// The profiles read back from disk, none being edited.
    pub fn new(profiles: Vec<Profile>) -> (b: Self)
        ensures
            b.profiles() == profiles@,
            b.editing() is None,
    {
        ProfileBook { profiles, editing: None }
    }

    /// How many there are.
    pub fn len(&self) -> (n: usize)
        ensures
            n == self.profiles().len(),
    {
        self.profiles.len()
    }

    /// One of them.
    pub fn get(&self, index: usize) -> (p: Option<&Profile>)
        ensures
            match p {
                Some(p) => index < self.profiles().len() && *p == self.profiles()[index as int],
                None => index >= self.profiles().len(),
            },
    {
        if index < self.profiles.len() {
            Some(&self.profiles[index])
        } else {
            None
        }
    }

    /// Kaydet: while editing a profile the form is written back to it;
    /// otherwise it becomes a new one, named for its place. Either way the
    /// editing is over. The message says which.
    pub fn save(&mut self, config: PanelConfig, description: String) -> (message: String)
        requires
            old(self).profiles().len() < u64::MAX,
        ensures
            final(self).editing() is None,
            match old(self).editing() {
                Some(i) => if i < old(self).profiles().len() {
                    &&& final(self).profiles() == old(self).profiles().update(i as int, Profile {
                        name: old(self).profiles()[i as int].name,
                        description,
                        config,
                    })
                    &&& message@ == "Profil güncellendi: "@ + old(self).profiles()[i as int].name@
                } else {
                    Self::appended(old(self).profiles(), final(self).profiles(), description, config, message@)
                },
                None => Self::appended(old(self).profiles(), final(self).profiles(), description, config, message@),
            },
    {
        let editing = self.editing;
        self.editing = None;
        match editing {
            Some(i) => {
                if i < self.profiles.len() {
                    let ghost before = self.profiles@;
                    let previous = self.profiles.remove(i);
                    let Profile { name, description: _, config: _ } = previous;
                    let mut message = owned("Profil güncellendi: ");
                    append(&mut message, name.as_str());
                    self.profiles.insert(i, Profile { name, description, config });
                    assert(self.profiles@ =~= before.update(i as int, self.profiles@[i as int]));
                    return message;
                }
            },
            None => {},
        }
        let count = self.profiles.len();
        let mut name = owned("Profil ");
        let n = decimal_string(count as u64 + 1);
        append(&mut name, n.as_str());
        let mut message = owned("Profil kaydedildi: ");
        append(&mut message, name.as_str());
        let ghost before = self.profiles@;
        self.profiles.push(Profile { name, description, config });
        assert(self.profiles@.drop_last() =~= before);
        message
    }

    /// `after` is `before` with a new profile at the end, named for its
    /// place, and `message` says it was saved.
    pub open spec fn appended(before: Seq<Profile>, after: Seq<Profile>, description: String, config: PanelConfig, message: Seq<char>) -> bool {
        &&& after.len() == before.len() + 1
        &&& after.drop_last() == before
        &&& after.last().name@ == "Profil "@ + decimal(before.len() + 1)
        &&& after.last().description == description
        &&& after.last().config == config
        &&& message == "Profil kaydedildi: "@ + after.last().name@
    }

    /// Uygula: the profile's form is put in the form by the caller. Applying
    /// is not editing, so a later save makes a new profile.
    pub fn apply(&mut self, index: usize) -> (found: bool)
        ensures
            found == (index < old(self).profiles().len()),
            final(self).profiles() == old(self).profiles(),
            final(self).editing() == (if found { None } else { old(self).editing() }),
    {
        if index < self.profiles.len() {
            self.editing = None;
            true
        } else {
            false
        }
    }

    /// Düzenle: applying, and remembering which profile a save writes back
    /// to.
    pub fn edit(&mut self, index: usize) -> (found: bool)
        ensures
            found == (index < old(self).profiles().len()),
            final(self).profiles() == old(self).profiles(),
            final(self).editing() == (if found { Some(index) } else { old(self).editing() }),
    {
        if index < self.profiles.len() {
            self.editing = Some(index);
            true
        } else {
            false
        }
    }

    /// The form was rewritten from elsewhere (its defaults, or a profile
    /// started on its own): whatever was being edited no longer is.
    pub fn end_edit(&mut self)
        ensures
            final(self).profiles() == old(self).profiles(),
            final(self).editing() is None,
    {
        self.editing = None;
    }

    /// Sil: the profile goes, and so does any edit in flight, whose index
    /// would now name another profile.
    pub fn delete(&mut self, index: usize) -> (removed: Option<Profile>)
        ensures
            index < old(self).profiles().len() ==> {
                &&& removed == Some(old(self).profiles()[index as int])
                &&& final(self).profiles() == old(self).profiles().remove(index as int)
                &&& final(self).editing() is None
            },
            index >= old(self).profiles().len() ==> removed is None && final(self).profiles() == old(self).profiles()
                && final(self).editing() == old(self).editing(),
    {
        if index < self.profiles.len() {
            self.editing = None;
            Some(self.profiles.remove(index))
        } else {
            None
        }
    }
}


/// With nothing running and at most one device ticked, Başlat embeds the
/// mirror exactly when the embedded mirror is wanted, and opens a window of
/// its own otherwise; ticking one device or none makes no difference.
/// Several devices always get a window each, and a running session is never
/// started again.
pub proof fn one_device_is_embedded_when_wanted(devices: nat, embedded_wanted: bool)
    ensures
        devices <= 1 ==> ((launch_plan_spec(false, devices, embedded_wanted) == LaunchPlan::Embedded) == embedded_wanted),
        devices <= 1 && !embedded_wanted ==> launch_plan_spec(false, devices, embedded_wanted) == LaunchPlan::Windowed,
        devices <= 1 ==> launch_plan_spec(false, devices, embedded_wanted) == launch_plan_spec(false, 0, embedded_wanted),
        devices > 1 ==> launch_plan_spec(false, devices, embedded_wanted) is WindowPerDevice,
        launch_plan_spec(true, devices, embedded_wanted) == LaunchPlan::AlreadyRunning,
{
}

} // verus!
