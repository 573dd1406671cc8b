//! Where the panel's files go: recordings, with a tilde expanded wherever it
//! came from, and paths shown with the home directory written as `~`.
//!
//! The home directory is the environment's; it is handed in, and `None`
//! stands for an environment with no `HOME`.

use vstd::prelude::*;
use crate::paths::{parent_of, path_parent};
use crate::text::{
    append, chars_of, has_char, has_prefix, owned, push_char, range_equals, string_of_range,
    trim, trim_bounds,
};

verus! {

/// `s` without its trailing `/`s.
pub open spec fn trim_trailing_slashes(s: Seq<char>) -> Seq<char>
    decreases s.len(),
{
    if s.len() > 0 && s.last() == '/' {
        trim_trailing_slashes(s.drop_last())
    } else {
        s
    }
}

/// `~/rest` with the home directory in place of the tilde; anything else, or
/// anything with no home directory to put there, as it is.
pub open spec fn expand_home_spec(path: Seq<char>, home: Option<Seq<char>>) -> Seq<char> {
    if has_prefix(path, seq!['~', '/']) {
        match home {
            Some(h) => trim_trailing_slashes(h).push('/') + path.subrange(2, path.len() as int),
            None => path,
        }
    } else {
        path
    }
}

/// Where a recording typed into the form goes: a bare file name in the
/// recording folder, a path with a separator in it where it says, the tilde
/// expanded either way.
pub open spec fn record_path_spec(typed: Seq<char>, directory: Seq<char>, home: Option<Seq<char>>) -> Seq<char> {
    let t = expand_home_spec(trim(typed), home);
    if t.len() == 0 || has_char(t, '/') || directory.len() == 0 {
        t
    } else {
        trim_trailing_slashes(directory).push('/') + t
    }
}

/// The end of `v[lo..hi]` with its trailing `/`s left out.
fn trim_slashes_end(v: &Vec<char>, lo: usize, hi: usize) -> (r: usize)
    requires
        lo <= hi <= v.len(),
    ensures
        lo <= r <= hi,
        v@.subrange(lo as int, r as int) == trim_trailing_slashes(v@.subrange(lo as int, hi as int)),
{
    let mut b = hi;
    while b > lo && v[b - 1] == '/'
        invariant
            lo <= b <= hi <= v.len(),
            trim_trailing_slashes(v@.subrange(lo as int, hi as int)) == trim_trailing_slashes(v@.subrange(lo as int, b as int)),
        decreases b - lo,
    {
        assert(v@.subrange(lo as int, b as int).drop_last() =~= v@.subrange(lo as int, b - 1));
        b = b - 1;
    }
    b
}

/// `s` without its trailing `/`s.
pub fn without_trailing_slashes(s: &str) -> (r: String)
    ensures
        r@ == trim_trailing_slashes(s@),
{
    let v = chars_of(s);
    assert(v@.subrange(0, v@.len() as int) == v@);
    let b = trim_slashes_end(&v, 0, v.len());
    string_of_range(&v, 0, b)
}

/// `~/Videos` is a shell convenience, not a path any file API knows.
pub fn expand_home(path: &str, home: Option<&str>) -> (r: String)
    ensures
        r@ == expand_home_spec(path@, match home { Some(h) => Some(h@), None => None }),
{
    let v = chars_of(path);
    if v.len() >= 2 && v[0] == '~' && v[1] == '/' {
        assert(has_prefix(v@, seq!['~', '/'])) by {
            assert(v@.subrange(0, 2) =~= seq!['~', '/']);
        }
        match home {
            Some(h) => {
                let mut s = without_trailing_slashes(h);
                push_char(&mut s, '/');
                let rest = string_of_range(&v, 2, v.len());
                append(&mut s, rest.as_str());
                s
            },
            None => owned(path),
        }
    } else {
        assert(!has_prefix(v@, seq!['~', '/'])) by {
            if v@.len() >= 2 {
                assert(v@.subrange(0, 2)[0] == v@[0]);
                assert(v@.subrange(0, 2)[1] == v@[1]);
            }
        }
        owned(path)
    }
}

/// Whether `c` occurs in `s`.
fn has_slash(s: &str) -> (b: bool)
    ensures
        b == has_char(s@, '/'),
{
    let v = chars_of(s);
    crate::text::contains_char(&v, '/')
}

/// Where a recording actually goes.
pub fn record_path_for(typed: &str, directory: &str, home: Option<&str>) -> (r: String)
    ensures
        r@ == record_path_spec(typed@, directory@, match home { Some(h) => Some(h@), None => None }),
{
    let tv = chars_of(typed);
    assert(tv@.subrange(0, tv@.len() as int) == tv@);
    let (a, b) = trim_bounds(&tv, 0, tv.len());
    let trimmed = string_of_range(&tv, a, b);
    let t = expand_home(trimmed.as_str(), home);
    let empty = chars_of(t.as_str()).len() == 0;
    let dir_empty = chars_of(directory).len() == 0;
    if empty || has_slash(t.as_str()) || dir_empty {
        return t;
    }
    let mut s = without_trailing_slashes(directory);
    push_char(&mut s, '/');
    append(&mut s, t.as_str());
    s
}

/// A path to show somebody, with their home directory written as `~`.
pub open spec fn under_home_spec(shown: Seq<char>, home: Option<Seq<char>>) -> Seq<char> {
    match home {
        Some(h) => {
            let base = trim_trailing_slashes(h);
            if has_prefix(shown, base) && shown.len() > base.len() && shown[base.len() as int] == '/' {
                seq!['~'] + shown.subrange(base.len() as int, shown.len() as int)
            } else {
                shown
            }
        },
        None => shown,
    }
}

/// See `under_home_spec`.
pub fn under_home(shown: &str, home: Option<&str>) -> (r: String)
    ensures
        r@ == under_home_spec(shown@, match home { Some(h) => Some(h@), None => None }),
{
    match home {
        Some(h) => {
            let base = chars_of(h);
            assert(base@.subrange(0, base@.len() as int) == base@);
            let end = trim_slashes_end(&base, 0, base.len());
            let base_trimmed = crate::text::chars_of(string_of_range(&base, 0, end).as_str());
            let v = chars_of(shown);
            if crate::text::starts_with(&v, &base_trimmed) && v.len() > base_trimmed.len()
                && v[base_trimmed.len()] == '/' {
                let mut s = String::new();
                push_char(&mut s, '~');
                let rest = string_of_range(&v, base_trimmed.len(), v.len());
                append(&mut s, rest.as_str());
                assert(s@ =~= seq!['~'] + v@.subrange(base_trimmed@.len() as int, v@.len() as int));
                s
            } else {
                owned(shown)
            }
        },
        None => owned(shown),
    }
}

/// The panel's configuration folder: under `$XDG_CONFIG_HOME` when it is
/// set, else under `$HOME/.config`, else nowhere.
pub fn config_dir_from(xdg_config_home: Option<&str>, home: Option<&str>) -> (r: Option<String>)
    ensures
        match r {
            Some(d) => d@ == match xdg_config_home {
                Some(x) => x@ + "/scrcpy-slint"@,
                None => home.unwrap()@ + "/.config/scrcpy-slint"@,
            } && (xdg_config_home is Some || home is Some),
            None => xdg_config_home is None && home is None,
        },
{
    match xdg_config_home {
        Some(x) => {
            let mut s = owned(x);
            append(&mut s, "/scrcpy-slint");
            Some(s)
        },
        None => match home {
            Some(h) => {
                let mut s = owned(h);
                append(&mut s, "/.config/scrcpy-slint");
                Some(s)
            },
            None => None,
        },
    }
}

/// The daemon port a child process is told about: none for adb's own
/// default, which would only make its environment noisier.
pub fn child_adb_port(port: Option<u16>) -> (r: Option<u16>)
    ensures
        r == match port {
            Some(p) => if p != 5037 { Some(p) } else { None },
            None => None,
        },
{
    match port {
        Some(p) => if p != 5037 { Some(p) } else { None },
        None => None,
    }
}

/// The directory of the chosen adb, to put first on a child's `PATH`: the
/// parent of its path, where that is not empty. A bare `adb` has none and
/// needs no help.
pub open spec fn adb_dir_spec(adb_path: Seq<char>) -> Option<Seq<char>> {
    match path_parent(adb_path) {
        Some(d) => if d.len() == 0 { None } else { Some(d) },
        None => None,
    }
}

/// The directory of the chosen adb, `None` where its path names none.
pub fn adb_dir(adb_path: &str) -> (r: Option<String>)
    ensures
        match r {
            Some(d) => adb_dir_spec(adb_path@) == Some(d@),
            None => adb_dir_spec(adb_path@) is None,
        },
{
    match parent_of(adb_path) {
        Some(d) => if d.as_str().unicode_len() == 0 { None } else { Some(d) },
        None => None,
    }
}

/// The recording folder a launch uses: the one from the settings, trimmed,
/// its tilde expanded.
pub open spec fn launch_dir_spec(setting: Seq<char>, home: Option<Seq<char>>) -> Seq<char> {
    expand_home_spec(trim(setting), home)
}

/// Where a launched session records, and the folder to create for it first:
/// a recording switched on goes where `record_path_spec` says, and the
/// recording folder is made when the file is put in it.
pub open spec fn launch_record_spec(
    enabled: bool,
    typed: Seq<char>,
    setting: Seq<char>,
    home: Option<Seq<char>>,
) -> (Seq<char>, Option<Seq<char>>) {
    let directory = launch_dir_spec(setting, home);
    if enabled {
        let joined = record_path_spec(typed, directory, home);
        (joined, if joined != typed && directory.len() > 0 && has_prefix(joined, directory) {
            Some(directory)
        } else {
            None
        })
    } else {
        (typed, None)
    }
}

/// See `launch_record_spec`.
pub fn launch_record(enabled: bool, typed: &str, setting: &str, home: Option<&str>) -> (r: (String, Option<String>))
    ensures
        (r.0@, match r.1 { Some(d) => Some(d@), None => None }) == launch_record_spec(
            enabled,
            typed@,
            setting@,
            match home { Some(h) => Some(h@), None => None },
        ),
{
    if !enabled {
        return (owned(typed), None);
    }
    let sv = chars_of(setting);
    assert(sv@.subrange(0, sv@.len() as int) == sv@);
    let (a, b) = crate::text::trim_bounds(&sv, 0, sv.len());
    let trimmed = string_of_range(&sv, a, b);
    let directory = expand_home(trimmed.as_str(), home);
    let joined = record_path_for(typed, directory.as_str(), home);
    let jv = chars_of(joined.as_str());
    let dv = chars_of(directory.as_str());
    let create = !crate::text::text_eq(joined.as_str(), typed) && dv.len() > 0 && crate::text::starts_with(&jv, &dv);
    (joined, if create { Some(directory) } else { None })
}

/// The panel's own preferences, as they are stored between runs.
pub struct StoredSettings {
    pub adb_path: String,
    pub adb_port: String,
    pub language: String,
    pub mirror_mode: String,
    pub record_dir: String,
    pub screenshot_dir: String,
    pub autostart_profile: bool,
    pub minimize_to_tray: bool,
    pub check_version: bool,
    pub log_to_disk: bool,
}

impl Default for StoredSettings {
    fn default() -> (s: Self)
        ensures
            s.adb_path@.len() == 0 && s.adb_port@.len() == 0 && s.language@.len() == 0,
            s.mirror_mode@.len() == 0 && s.record_dir@.len() == 0 && s.screenshot_dir@.len() == 0,
            !s.autostart_profile && !s.minimize_to_tray && !s.check_version && !s.log_to_disk,
    {
        StoredSettings {
            adb_path: String::new(),
            adb_port: String::new(),
            language: String::new(),
            mirror_mode: String::new(),
            record_dir: String::new(),
            screenshot_dir: String::new(),
            autostart_profile: false,
            minimize_to_tray: false,
            check_version: false,
            log_to_disk: false,
        }
    }
}

/// A stored text, or what is shown when nothing was stored.
pub open spec fn stored_or(stored: Seq<char>, shown: Seq<char>) -> Seq<char> {
    if stored.len() > 0 { stored } else { shown }
}

impl StoredSettings {
    /// Loading the stored preferences over those shown: the adb path and
    /// port, the language and the mirror mode keep what is shown when
    /// nothing was stored for them, since each has a default of its own;
    /// everything else is taken as stored.
    pub fn apply_stored(&mut self, stored: StoredSettings)
        ensures
            final(self).adb_path@ == stored_or(stored.adb_path@, old(self).adb_path@),
            final(self).adb_port@ == stored_or(stored.adb_port@, old(self).adb_port@),
            final(self).language@ == stored_or(stored.language@, old(self).language@),
            final(self).mirror_mode@ == stored_or(stored.mirror_mode@, old(self).mirror_mode@),
            final(self).record_dir@ == stored.record_dir@,
            final(self).screenshot_dir@ == stored.screenshot_dir@,
            final(self).autostart_profile == stored.autostart_profile,
            final(self).minimize_to_tray == stored.minimize_to_tray,
            final(self).check_version == stored.check_version,
            final(self).log_to_disk == stored.log_to_disk,
    {
        let StoredSettings {
            adb_path, adb_port, language, mirror_mode, record_dir, screenshot_dir,
            autostart_profile, minimize_to_tray, check_version, log_to_disk,
        } = stored;
        if chars_of(adb_path.as_str()).len() > 0 {
            self.adb_path = adb_path;
        }
        if chars_of(adb_port.as_str()).len() > 0 {
            self.adb_port = adb_port;
        }
        if chars_of(language.as_str()).len() > 0 {
            self.language = language;
        }
        if chars_of(mirror_mode.as_str()).len() > 0 {
            self.mirror_mode = mirror_mode;
        }
        self.record_dir = record_dir;
        self.screenshot_dir = screenshot_dir;
        self.autostart_profile = autostart_profile;
        self.minimize_to_tray = minimize_to_tray;
        self.check_version = check_version;
        self.log_to_disk = log_to_disk;
    }
}

} // verus!
