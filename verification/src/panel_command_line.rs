//! The panel's flags as one command line, for the bar at the bottom and the
//! clipboard, and as the argument list this client is launched with.

use vstd::prelude::*;
use crate::text::{
    append, chars_of, decimal, has_prefix, owned, parse_range, parse_unsigned, push_char,
    starts_with, string_of_range, text_eq, trim, trim_bounds,
};
use crate::options::first_index_of;
use crate::panel_command::{
    clipboard_direction_spec, mouse_bind_flags, new_display_flags, opt_spec, record_output_flags,
    record_path_spec, switch_flags, switch_spec, tcpip_flags, v4l2_flags,
};
use crate::panel_command::{assign, flags_spec, supported_spec, is_supported, views, PanelConfig};
use crate::panel_command::{
    audio_flags, camera_flags, input_flags, network_flags, record_flags, switch_flags_0, switch_flags_1,
    switch_flags_2, switch_flags_3, valued_switch_flags, video_flags, virtual_display_flags, window_flags,
};

verus! {

/// The parts joined by `sep`.
pub open spec fn join(parts: Seq<Seq<char>>, sep: char) -> Seq<char>
    decreases parts.len(),
{
    if parts.len() == 0 {
        Seq::empty()
    } else if parts.len() == 1 {
        parts[0]
    } else {
        join(parts.drop_last(), sep).push(sep) + parts.last()
    }
}

/// The flags without any `--serial=`.
pub open spec fn without_serial(flags: Seq<Seq<char>>) -> Seq<Seq<char>>
    decreases flags.len(),
{
    if flags.len() == 0 {
        Seq::empty()
    } else if has_prefix(flags.last(), "--serial="@) {
        without_serial(flags.drop_last())
    } else {
        without_serial(flags.drop_last()).push(flags.last())
    }
}

/// The command line for these flags and these devices. One device is one
/// command; several become a shell loop that starts one client per serial,
/// each with its own `--serial`.
pub open spec fn command_line_spec(flags: Seq<Seq<char>>, serials: Seq<Seq<char>>) -> Seq<char> {
    if serials.len() < 2 {
        if flags.len() == 0 {
            "scrcpy"@
        } else {
            "scrcpy"@.push(' ') + join(flags, ' ')
        }
    } else {
        let kept = without_serial(flags);
        let joined = if kept.len() == 0 { Seq::empty() } else { seq![' '] + join(kept, ' ') };
        "for s in "@ + join(serials, ' ') + "; do scrcpy --serial=$s"@ + joined + " & done"@
    }
}

/// The name of a flag: what precedes its first `=`.
pub open spec fn flag_name_spec(flag: Seq<char>) -> Seq<char> {
    match first_index_of(flag, '=') {
        Some(i) => flag.subrange(0, i),
        None => flag,
    }
}

/// The digits and the multiplier of a bit rate written as scrcpy accepts
/// it, after trimming: a `K` or `M` suffix in either case.
pub open spec fn bit_rate_parts(value: Seq<char>) -> (Seq<char>, nat) {
    let t = trim(value);
    if t.len() > 0 && (t.last() == 'K' || t.last() == 'k') {
        (t.drop_last(), 1000)
    } else if t.len() > 0 && (t.last() == 'M' || t.last() == 'm') {
        (t.drop_last(), 1000000)
    } else {
        (t, 1)
    }
}

/// A bit rate in plain bits per second, or the trimmed text where it does
/// not parse.
pub open spec fn expand_spec(value: Seq<char>) -> Seq<char> {
    let (digits, multiplier) = bit_rate_parts(value);
    match parse_unsigned(digits, u64::MAX as nat) {
        Some(n) => decimal(n * multiplier),
        None => trim(value),
    }
}

/// Whether expanding `value` stays within a `u64`.
pub open spec fn expand_fits(value: Seq<char>) -> bool {
    let (digits, multiplier) = bit_rate_parts(value);
    match parse_unsigned(digits, u64::MAX as nat) {
        Some(n) => n * multiplier <= u64::MAX,
        None => true,
    }
}

/// A flag as this client is launched with it: bit rates expanded.
pub open spec fn client_form(flag: Seq<char>) -> Seq<char> {
    let name = flag_name_spec(flag);
    match first_index_of(flag, '=') {
        Some(i) => if name == "--video-bit-rate"@ || name == "--audio-bit-rate"@ {
            assign(name, expand_spec(flag.subrange(i + 1, flag.len() as int)))
        } else {
            flag
        },
        None => flag,
    }
}

/// The flags split into what this client can be launched with and what it
/// cannot accept.
pub open spec fn client_args_spec(flags: Seq<Seq<char>>) -> (Seq<Seq<char>>, Seq<Seq<char>>)
    decreases flags.len(),
{
    if flags.len() == 0 {
        (Seq::empty(), Seq::empty())
    } else {
        let (accepted, dropped) = client_args_spec(flags.drop_last());
        let f = flags.last();
        if supported_spec(flag_name_spec(f)) {
            (accepted.push(client_form(f)), dropped)
        } else {
            (accepted, dropped.push(f))
        }
    }
}

proof fn lemma_join_step(parts: Seq<Seq<char>>, i: int, sep: char)
    requires
        1 <= i < parts.len(),
    ensures
        join(parts.take(i + 1), sep) == join(parts.take(i), sep).push(sep) + parts[i],
{
    assert(parts.take(i + 1).drop_last() =~= parts.take(i));
}

/// The strings joined by `sep`.
pub fn join_strings(parts: &[String], sep: char) -> (s: String)
    ensures
        s@ == join(views(parts@), sep),
{
    let ghost v = views(parts@);
    if parts.len() == 0 {
        return String::new();
    }
    let mut s = owned(parts[0].as_str());
    assert(v.take(1) =~= seq![v[0]]);
    let mut i: usize = 1;
    while i < parts.len()
        invariant
            1 <= i <= parts.len(),
            v == views(parts@),
            s@ == join(v.take(i as int), sep),
        decreases parts.len() - i,
    {
        proof { lemma_join_step(v, i as int, sep); }
        push_char(&mut s, sep);
        append(&mut s, parts[i].as_str());
        i = i + 1;
    }
    assert(v.take(parts.len() as int) =~= v);
    s
}

/// The flags without any `--serial=`.
fn drop_serials(flags: &Vec<String>) -> (r: Vec<String>)
    ensures
        views(r@) == without_serial(views(flags@)),
{
    let ghost v = views(flags@);
    let prefix = chars_of("--serial=");
    let mut r: Vec<String> = Vec::new();
    let mut i: usize = 0;
    assert(v.take(0) =~= Seq::<Seq<char>>::empty());
    assert(views(r@) =~= Seq::<Seq<char>>::empty());
    while i < flags.len()
        invariant
            i <= flags.len(),
            v == views(flags@),
            prefix@ == "--serial="@,
            views(r@) == without_serial(v.take(i as int)),
        decreases flags.len() - i,
    {
        assert(v.take(i + 1).drop_last() =~= v.take(i as int));
        let f = chars_of(flags[i].as_str());
        if !starts_with(&f, &prefix) {
            let ghost before = r@;
            r.push(owned(flags[i].as_str()));
            assert(views(r@) =~= views(before).push(v[i as int]));
        }
        i = i + 1;
    }
    assert(v.take(flags.len() as int) =~= v);
    r
}

/// The command line for a list of flags and of devices.
pub fn command_line(flags: &Vec<String>, serials: &[String]) -> (s: String)
    ensures
        s@ == command_line_spec(views(flags@), views(serials@)),
{
    if serials.len() < 2 {
        if flags.len() == 0 {
            return owned("scrcpy");
        }
        let mut s = owned("scrcpy");
        push_char(&mut s, ' ');
        let joined = join_strings(flags.as_slice(), ' ');
        append(&mut s, joined.as_str());
        return s;
    }
    let kept = drop_serials(flags);
    let mut s = owned("for s in ");
    let devices = join_strings(serials, ' ');
    append(&mut s, devices.as_str());
    append(&mut s, "; do scrcpy --serial=$s");
    let ghost head = s@;
    if kept.len() > 0 {
        push_char(&mut s, ' ');
        let joined = join_strings(kept.as_slice(), ' ');
        append(&mut s, joined.as_str());
        assert(s@ =~= head + (seq![' '] + join(views(kept@), ' ')));
    } else {
        assert(s@ =~= head + Seq::<char>::empty());
    }
    append(&mut s, " & done");
    s
}

/// The name of a flag: what precedes its first `=`.
pub fn flag_name(arg: &str) -> (name: String)
    ensures
        name@ == flag_name_spec(arg@),
{
    let v = chars_of(arg);
    assert(v@.subrange(0, v@.len() as int) == v@);
    match find_first_eq(&v) {
        Some(i) => string_of_range(&v, 0, i),
        None => owned(arg),
    }
}

/// The index of the first `=` in `v`.
fn find_first_eq(v: &Vec<char>) -> (r: Option<usize>)
    ensures
        match r {
            Some(i) => i < v.len() && first_index_of(v@, '=') == Some(i as int),
            None => first_index_of(v@, '=') is None,
        },
{
    let mut i = v.len();
    let mut found: Option<usize> = None;
    assert(v@.subrange(i as int, v@.len() as int) =~= Seq::<char>::empty());
    while i > 0
        invariant
            i <= v.len(),
            match found {
                Some(k) => i <= k < v.len() && first_index_of(v@.subrange(i as int, v@.len() as int), '=') == Some(k - i),
                None => first_index_of(v@.subrange(i as int, v@.len() as int), '=') is None,
            },
        decreases i,
    {
        i = i - 1;
        assert(v@.subrange(i as int, v@.len() as int).drop_first() =~= v@.subrange(i + 1, v@.len() as int));
        if v[i] == '=' {
            found = Some(i);
        }
    }
    assert(v@.subrange(0, v@.len() as int) =~= v@);
    found
}

/// `n` in decimal, for a product too wide for a `u64`.
fn decimal_wide(n: u128) -> (s: String)
    ensures
        s@ == decimal(n as nat),
    decreases n,
{
    if n < 10 {
        crate::text::decimal_string(n as u64)
    } else {
        let mut s = decimal_wide(n / 10);
        let d = crate::text::decimal_string((n % 10) as u64);
        assert(d@ == seq![crate::text::digit_char((n % 10) as nat)]);
        append(&mut s, d.as_str());
        s
    }
}

/// A bit rate expanded to bits per second, however large.
fn expand_value(value: &str) -> (s: String)
    ensures
        s@ == expand_spec(value@),
{
    let v = chars_of(value);
    assert(v@.subrange(0, v@.len() as int) == v@);
    let (a, b) = trim_bounds(&v, 0, v.len());
    let ghost t = v@.subrange(a as int, b as int);
    let (end, multiplier): (usize, u64) = if b > a && (v[b - 1] == 'K' || v[b - 1] == 'k') {
        (b - 1, 1000)
    } else if b > a && (v[b - 1] == 'M' || v[b - 1] == 'm') {
        (b - 1, 1000000)
    } else {
        (b, 1)
    };
    assert(end < b ==> v@.subrange(a as int, end as int) =~= t.drop_last());
    match parse_range(&v, a, end, u64::MAX) {
        Some(n) => {
            assert((n as u128) * (multiplier as u128) <= 0xffff_ffff_ffff_ffff_ffff_ffff) by (nonlinear_arith)
                requires n <= u64::MAX, multiplier <= 1000000;
            decimal_wide((n as u128) * (multiplier as u128))
        },
        None => string_of_range(&v, a, b),
    }
}

/// Expand a bit rate written the way scrcpy's own command line accepts it:
/// `8M` is `8000000`, and what does not parse is left as it is, trimmed.
pub fn expand_bit_rate(value: &str) -> (s: String)
    requires
        expand_fits(value@),
    ensures
        s@ == expand_spec(value@),
{
    expand_value(value)
}

/// A flag as this client is launched with it.
fn to_client_form(flag: &str) -> (s: String)
    ensures
        s@ == client_form(flag@),
{
    let v = chars_of(flag);
    assert(v@.subrange(0, v@.len() as int) == v@);
    match find_first_eq(&v) {
        Some(i) => {
            let name = string_of_range(&v, 0, i);
            if text_eq(name.as_str(), "--video-bit-rate") || text_eq(name.as_str(), "--audio-bit-rate") {
                let value = string_of_range(&v, i + 1, v.len());
                let expanded = expand_value(value.as_str());
                let mut s = name;
                push_char(&mut s, '=');
                append(&mut s, expanded.as_str());
                s
            } else {
                owned(flag)
            }
        },
        None => owned(flag),
    }
}

/// Split flags into what this client can be launched with and what it
/// cannot accept yet.
pub fn client_args(flags: &Vec<String>) -> (r: (Vec<String>, Vec<String>))
    ensures
        (views(r.0@), views(r.1@)) == client_args_spec(views(flags@)),
{
    let ghost v = views(flags@);
    let mut accepted: Vec<String> = Vec::new();
    let mut dropped: Vec<String> = Vec::new();
    let mut i: usize = 0;
    assert(v.take(0) =~= Seq::<Seq<char>>::empty());
    assert(views(accepted@) =~= Seq::<Seq<char>>::empty());
    assert(views(dropped@) =~= Seq::<Seq<char>>::empty());
    while i < flags.len()
        invariant
            i <= flags.len(),
            v == views(flags@),
            (views(accepted@), views(dropped@)) == client_args_spec(v.take(i as int)),
        decreases flags.len() - i,
    {
        assert(v.take(i + 1).drop_last() =~= v.take(i as int));
        let name = flag_name(flags[i].as_str());
        if is_supported(name.as_str()) {
            let ghost before = accepted@;
            accepted.push(to_client_form(flags[i].as_str()));
            assert(views(accepted@) =~= views(before).push(client_form(v[i as int])));
        } else {
            let ghost before = dropped@;
            dropped.push(owned(flags[i].as_str()));
            assert(views(dropped@) =~= views(before).push(v[i as int]));
        }
        i = i + 1;
    }
    assert(v.take(flags.len() as int) =~= v);
    (accepted, dropped)
}

impl PanelConfig {
    /// The command as one line, for the bar at the bottom and for the
    /// clipboard, with `stamp` as the time a recording is named for.
    pub fn to_command_line_for_at(&self, serials: &[String], stamp: u64) -> (s: String)
        ensures
            s@ == command_line_spec(flags_spec(*self, stamp), views(serials@)),
    {
        let flags = self.to_flags_at(stamp);
        command_line(&flags, serials)
    }

    /// The command as one line, for a set of devices.
    pub fn to_command_line_for(&self, serials: &[String]) -> (s: String)
        ensures
            exists|stamp: u64| s@ == command_line_spec(flags_spec(*self, stamp), views(serials@)),
    {
        let flags = self.to_flags();
        command_line(&flags, serials)
    }

    /// The command as one line, for no device in particular, with a
    /// recording named for `stamp`: the line for an empty set of devices.
    pub fn to_command_line_at(&self, stamp: u64) -> (s: String)
        ensures
            s@ == command_line_spec(flags_spec(*self, stamp), Seq::<Seq<char>>::empty()),
    {
        let none: Vec<String> = Vec::new();
        let s = self.to_command_line_for_at(none.as_slice(), stamp);
        assert(views(none@) =~= Seq::<Seq<char>>::empty());
        s
    }

    /// The command as one line, for no device in particular.
    pub fn to_command_line(&self) -> (s: String)
        ensures
            exists|stamp: u64| s@ == command_line_spec(flags_spec(*self, stamp), Seq::<Seq<char>>::empty()),
    {
        let none: Vec<String> = Vec::new();
        let s = self.to_command_line_for(none.as_slice());
        assert(views(none@) =~= Seq::<Seq<char>>::empty());
        s
    }

    /// How many flags the current form produces, which does not depend on
    /// the time a recording would be named for.
    pub fn flag_count(&self) -> (n: usize)
        ensures
            forall|stamp: u64| n == #[trigger] flags_spec(*self, stamp).len(),
    {
        let flags = self.to_flags();
        proof {
            assert forall|stamp: u64| flags@.len() == #[trigger] flags_spec(*self, stamp).len() by {
                let s0 = choose|s0: u64| views(flags@) == flags_spec(*self, s0);
                the_flag_count_does_not_depend_on_the_time(*self, s0, stamp);
            }
        }
        flags.len()
    }

    /// The flags split into what this client can be launched with and what
    /// it cannot accept yet, with `stamp` as the time a recording is named
    /// for.
    pub fn to_client_args_at(&self, stamp: u64) -> (r: (Vec<String>, Vec<String>))
        ensures
            (views(r.0@), views(r.1@)) == client_args_spec(flags_spec(*self, stamp)),
    {
        let flags = self.to_flags_at(stamp);
        client_args(&flags)
    }

    /// The flags split into what this client can be launched with and what
    /// it cannot accept yet.
    pub fn to_client_args(&self) -> (r: (Vec<String>, Vec<String>))
        ensures
            exists|stamp: u64| (views(r.0@), views(r.1@)) == client_args_spec(flags_spec(*self, stamp)),
    {
        let flags = self.to_flags();
        client_args(&flags)
    }
}

/// The line under the command bar: which device, how many flags, which
/// codecs.
pub open spec fn status_line_spec(c: PanelConfig, devices: nat, flags: nat) -> Seq<char> {
    let serial = if devices <= 1 { c.serial@ } else { decimal(devices) + " cihaz"@ };
    let device = if serial.len() == 0 { "cihaz seçilmedi"@ } else { serial };
    let codecs = if c.no_audio { c.video_codec@ } else { c.video_codec@ + " + "@ + c.audio_codec@ };
    device + " · "@ + decimal(flags) + " bayrak · "@ + codecs
}

impl PanelConfig {
    /// See `status_line_spec`, for a launch on `devices` devices.
    pub fn status_line(&self, devices: usize) -> (s: String)
        ensures
            forall|stamp: u64| s@ == status_line_spec(*self, devices as nat, #[trigger] flags_spec(*self, stamp).len()),
    {
        let mut s = if devices <= 1 {
            owned(self.serial.as_str())
        } else {
            let mut n = crate::text::decimal_string(devices as u64);
            append(&mut n, " cihaz");
            n
        };
        if chars_of(s.as_str()).len() == 0 {
            s = owned("cihaz seçilmedi");
        }
        append(&mut s, " · ");
        let count = self.flag_count();
        let n = crate::text::decimal_string(count as u64);
        append(&mut s, n.as_str());
        append(&mut s, " bayrak · ");
        append(&mut s, self.video_codec.as_str());
        if !self.no_audio {
            append(&mut s, " + ");
            append(&mut s, self.audio_codec.as_str());
        }
        s
    }
}

/// The time a recording is named for changes what `--record` says, never
/// how many flags there are.
pub proof fn the_flag_count_does_not_depend_on_the_time(c: PanelConfig, a: u64, b: u64)
    ensures
        flags_spec(c, a).len() == flags_spec(c, b).len(),
{
    assert(crate::panel_command::record_output_flags(c, a).len() == crate::panel_command::record_output_flags(c, b).len());
}

/// Nothing is lost between the form and the client: every flag is either
/// passed on, in order, or reported as one this client does not take, and
/// never both.
pub proof fn every_flag_is_passed_on_or_reported(flags: Seq<Seq<char>>)
    ensures
        client_args_spec(flags).0.len() + client_args_spec(flags).1.len() == flags.len(),
        forall|i: int| 0 <= i < client_args_spec(flags).1.len()
            ==> !supported_spec(flag_name_spec(#[trigger] client_args_spec(flags).1[i])),
    decreases flags.len(),
{
    if flags.len() > 0 {
        every_flag_is_passed_on_or_reported(flags.drop_last());
    }
}

/// The form with its camera section filled in otherwise.
pub open spec fn with_camera(
    c: PanelConfig,
    facing: String,
    id: String,
    size: String,
    ar: String,
    fps: String,
    high_speed: bool,
) -> PanelConfig {
    PanelConfig {
        camera_facing: facing,
        camera_id: id,
        camera_size: size,
        camera_ar: ar,
        camera_fps: fps,
        camera_high_speed: high_speed,
        ..c
    }
}

// Each section of the flags on its own: none of them reads the camera
// section, but for the camera's own, which is empty off the camera.
proof fn video_flags_ignore_the_camera(c: PanelConfig, d: PanelConfig)
    requires
        c.video_source@ != "camera"@,
        d == with_camera(c, d.camera_facing, d.camera_id, d.camera_size, d.camera_ar, d.camera_fps, d.camera_high_speed),
    ensures
        video_flags(d) == video_flags(c),
{
}

proof fn audio_flags_ignore_the_camera(c: PanelConfig, d: PanelConfig)
    requires
        c.video_source@ != "camera"@,
        d == with_camera(c, d.camera_facing, d.camera_id, d.camera_size, d.camera_ar, d.camera_fps, d.camera_high_speed),
    ensures
        audio_flags(d) == audio_flags(c),
{
}

proof fn record_flags_ignore_the_camera(c: PanelConfig, d: PanelConfig)
    requires
        c.video_source@ != "camera"@,
        d == with_camera(c, d.camera_facing, d.camera_id, d.camera_size, d.camera_ar, d.camera_fps, d.camera_high_speed),
    ensures
        record_flags(d) == record_flags(c),
{
}

proof fn input_flags_ignore_the_camera(c: PanelConfig, d: PanelConfig)
    requires
        c.video_source@ != "camera"@,
        d == with_camera(c, d.camera_facing, d.camera_id, d.camera_size, d.camera_ar, d.camera_fps, d.camera_high_speed),
    ensures
        input_flags(d) == input_flags(c),
{
}

proof fn virtual_display_flags_ignore_the_camera(c: PanelConfig, d: PanelConfig)
    requires
        c.video_source@ != "camera"@,
        d == with_camera(c, d.camera_facing, d.camera_id, d.camera_size, d.camera_ar, d.camera_fps, d.camera_high_speed),
    ensures
        virtual_display_flags(d) == virtual_display_flags(c),
{
}

proof fn camera_flags_ignore_the_camera(c: PanelConfig, d: PanelConfig)
    requires
        c.video_source@ != "camera"@,
        d == with_camera(c, d.camera_facing, d.camera_id, d.camera_size, d.camera_ar, d.camera_fps, d.camera_high_speed),
    ensures
        camera_flags(d) == camera_flags(c),
{
}

proof fn window_flags_ignore_the_camera(c: PanelConfig, d: PanelConfig)
    requires
        c.video_source@ != "camera"@,
        d == with_camera(c, d.camera_facing, d.camera_id, d.camera_size, d.camera_ar, d.camera_fps, d.camera_high_speed),
    ensures
        window_flags(d) == window_flags(c),
{
}

proof fn network_flags_ignore_the_camera(c: PanelConfig, d: PanelConfig)
    requires
        c.video_source@ != "camera"@,
        d == with_camera(c, d.camera_facing, d.camera_id, d.camera_size, d.camera_ar, d.camera_fps, d.camera_high_speed),
    ensures
        network_flags(d) == network_flags(c),
{
}

proof fn switch_flags_0_ignore_the_camera(c: PanelConfig, d: PanelConfig)
    requires
        c.video_source@ != "camera"@,
        d == with_camera(c, d.camera_facing, d.camera_id, d.camera_size, d.camera_ar, d.camera_fps, d.camera_high_speed),
    ensures
        switch_flags_0(d) == switch_flags_0(c),
{
}

proof fn switch_flags_1_ignore_the_camera(c: PanelConfig, d: PanelConfig)
    requires
        c.video_source@ != "camera"@,
        d == with_camera(c, d.camera_facing, d.camera_id, d.camera_size, d.camera_ar, d.camera_fps, d.camera_high_speed),
    ensures
        switch_flags_1(d) == switch_flags_1(c),
{
}

proof fn switch_flags_2_ignore_the_camera(c: PanelConfig, d: PanelConfig)
    requires
        c.video_source@ != "camera"@,
        d == with_camera(c, d.camera_facing, d.camera_id, d.camera_size, d.camera_ar, d.camera_fps, d.camera_high_speed),
    ensures
        switch_flags_2(d) == switch_flags_2(c),
{
}

proof fn switch_flags_3_ignore_the_camera(c: PanelConfig, d: PanelConfig)
    requires
        c.video_source@ != "camera"@,
        d == with_camera(c, d.camera_facing, d.camera_id, d.camera_size, d.camera_ar, d.camera_fps, d.camera_high_speed),
    ensures
        switch_flags_3(d) == switch_flags_3(c),
{
}

proof fn valued_switch_flags_ignore_the_camera(c: PanelConfig, d: PanelConfig, stamp: u64)
    requires
        d == with_camera(c, d.camera_facing, d.camera_id, d.camera_size, d.camera_ar, d.camera_fps, d.camera_high_speed),
    ensures
        valued_switch_flags(d, stamp) == valued_switch_flags(c, stamp),
{
}

/// Camera settings are inert while a display is mirrored: whatever the
/// camera section holds, a form whose source is not the camera gives the
/// same flags.
pub proof fn camera_settings_are_inert_off_camera(
    c: PanelConfig,
    facing: String,
    id: String,
    size: String,
    ar: String,
    fps: String,
    high_speed: bool,
    stamp: u64,
)
    requires
        c.video_source@ != "camera"@,
    ensures
        flags_spec(with_camera(c, facing, id, size, ar, fps, high_speed), stamp) == flags_spec(c, stamp),
{
    let d = with_camera(c, facing, id, size, ar, fps, high_speed);
    video_flags_ignore_the_camera(c, d);
    audio_flags_ignore_the_camera(c, d);
    record_flags_ignore_the_camera(c, d);
    input_flags_ignore_the_camera(c, d);
    virtual_display_flags_ignore_the_camera(c, d);
    camera_flags_ignore_the_camera(c, d);
    window_flags_ignore_the_camera(c, d);
    network_flags_ignore_the_camera(c, d);
    switch_flags_0_ignore_the_camera(c, d);
    switch_flags_1_ignore_the_camera(c, d);
    switch_flags_2_ignore_the_camera(c, d);
    switch_flags_3_ignore_the_camera(c, d);
    valued_switch_flags_ignore_the_camera(c, d, stamp);
}

/// A switch that carries a value says nothing until its box is ticked, and
/// `--tcpip` nothing until it has an address as well.
pub proof fn valued_switches_wait_for_their_box(c: PanelConfig, stamp: u64)
    ensures
        !c.record_enabled ==> crate::panel_command::record_output_flags(c, stamp).len() == 0,
        !c.new_display_enabled ==> crate::panel_command::new_display_flags(c).len() == 0,
        !c.mouse_bind_enabled ==> crate::panel_command::mouse_bind_flags(c).len() == 0,
        !(c.tcpip_enabled && c.tcpip_addr@.len() > 0) ==> crate::panel_command::tcpip_flags(c).len() == 0,
{
}


/// Every flag of `flags` is an option: it begins with `--`.
pub open spec fn dashed(flags: Seq<Seq<char>>) -> bool {
    forall|i: int| 0 <= i < flags.len() ==> has_prefix(#[trigger] flags[i], "--"@)
}

// A flag's name begins with `--`, and so does the name with a value.
proof fn lemma_dashed_name(name: Seq<char>)
    requires
        name.len() >= 2,
        name[0] == '-',
        name[1] == '-',
    ensures
        has_prefix(name, "--"@),
        forall|v: Seq<char>| has_prefix(#[trigger] assign(name, v), "--"@),
{
    reveal_strlit("--");
    assert(name.subrange(0, 2) =~= "--"@);
    assert forall|v: Seq<char>| has_prefix(#[trigger] assign(name, v), "--"@) by {
        assert(assign(name, v).subrange(0, 2) =~= "--"@);
    }
}

proof fn lemma_opt_dashed(name: Seq<char>, value: Seq<char>, default: Seq<char>)
    requires
        forall|v: Seq<char>| has_prefix(#[trigger] assign(name, v), "--"@),
    ensures
        dashed(opt_spec(name, value, default)),
{
    reveal(opt_spec);
    assert(has_prefix(assign(name, value), "--"@));
}

proof fn lemma_switch_dashed(on: bool, name: Seq<char>)
    requires
        has_prefix(name, "--"@),
    ensures
        dashed(switch_spec(on, name)),
{
    reveal(switch_spec);
}

proof fn lemma_dashed_concat(a: Seq<Seq<char>>, b: Seq<Seq<char>>)
    requires
        dashed(a),
        dashed(b),
    ensures
        dashed(a + b),
{
    assert forall|i: int| 0 <= i < (a + b).len() implies has_prefix(#[trigger] (a + b)[i], "--"@) by {
        if i < a.len() {
            assert((a + b)[i] == a[i]);
        } else {
            assert((a + b)[i] == b[i - a.len()]);
        }
    }
}

proof fn lemma_dashed_one(x: Seq<char>)
    requires
        has_prefix(x, "--"@),
    ensures
        dashed(seq![x]),
{
}

proof fn video_flags_are_dashed(c: PanelConfig)
    ensures
        dashed(video_flags(c)),
{
    reveal_strlit("--video-source");
    lemma_dashed_name("--video-source"@);
    let p0 = opt_spec("--video-source"@, c.video_source@, "display"@);
    lemma_opt_dashed("--video-source"@, c.video_source@, "display"@);
    reveal_strlit("--video-codec");
    lemma_dashed_name("--video-codec"@);
    let p1 = opt_spec("--video-codec"@, c.video_codec@, "h264"@);
    lemma_opt_dashed("--video-codec"@, c.video_codec@, "h264"@);
    reveal_strlit("--video-encoder");
    lemma_dashed_name("--video-encoder"@);
    let p2 = opt_spec("--video-encoder"@, c.video_encoder@, ""@);
    lemma_opt_dashed("--video-encoder"@, c.video_encoder@, ""@);
    reveal_strlit("--video-bit-rate");
    lemma_dashed_name("--video-bit-rate"@);
    let p3 = opt_spec("--video-bit-rate"@, c.video_bit_rate@, "8M"@);
    lemma_opt_dashed("--video-bit-rate"@, c.video_bit_rate@, "8M"@);
    reveal_strlit("--max-size");
    lemma_dashed_name("--max-size"@);
    let p4 = opt_spec("--max-size"@, c.max_size@, ""@);
    lemma_opt_dashed("--max-size"@, c.max_size@, ""@);
    reveal_strlit("--max-fps");
    lemma_dashed_name("--max-fps"@);
    let p5 = opt_spec("--max-fps"@, c.max_fps@, ""@);
    lemma_opt_dashed("--max-fps"@, c.max_fps@, ""@);
    reveal_strlit("--crop");
    lemma_dashed_name("--crop"@);
    let p6 = opt_spec("--crop"@, c.crop@, ""@);
    lemma_opt_dashed("--crop"@, c.crop@, ""@);
    reveal_strlit("--display-id");
    lemma_dashed_name("--display-id"@);
    let p7 = opt_spec("--display-id"@, c.display_id@, ""@);
    lemma_opt_dashed("--display-id"@, c.display_id@, ""@);
    reveal_strlit("--video-buffer");
    lemma_dashed_name("--video-buffer"@);
    let p8 = opt_spec("--video-buffer"@, c.video_buffer@, ""@);
    lemma_opt_dashed("--video-buffer"@, c.video_buffer@, ""@);
    reveal_strlit("--display-orientation");
    lemma_dashed_name("--display-orientation"@);
    let p9 = opt_spec("--display-orientation"@, c.display_orientation@, "0"@);
    lemma_opt_dashed("--display-orientation"@, c.display_orientation@, "0"@);
    lemma_dashed_concat(p0, p1);
    lemma_dashed_concat(p0 + p1, p2);
    lemma_dashed_concat(p0 + p1 + p2, p3);
    lemma_dashed_concat(p0 + p1 + p2 + p3, p4);
    lemma_dashed_concat(p0 + p1 + p2 + p3 + p4, p5);
    lemma_dashed_concat(p0 + p1 + p2 + p3 + p4 + p5, p6);
    lemma_dashed_concat(p0 + p1 + p2 + p3 + p4 + p5 + p6, p7);
    lemma_dashed_concat(p0 + p1 + p2 + p3 + p4 + p5 + p6 + p7, p8);
    lemma_dashed_concat(p0 + p1 + p2 + p3 + p4 + p5 + p6 + p7 + p8, p9);
    assert(video_flags(c) == p0 + p1 + p2 + p3 + p4 + p5 + p6 + p7 + p8 + p9);
}

proof fn audio_flags_are_dashed(c: PanelConfig)
    ensures
        dashed(audio_flags(c)),
{
    reveal_strlit("--audio-codec");
    lemma_dashed_name("--audio-codec"@);
    let p0 = opt_spec("--audio-codec"@, c.audio_codec@, "opus"@);
    lemma_opt_dashed("--audio-codec"@, c.audio_codec@, "opus"@);
    reveal_strlit("--audio-source");
    lemma_dashed_name("--audio-source"@);
    let p1 = opt_spec("--audio-source"@, c.audio_source@, "output"@);
    lemma_opt_dashed("--audio-source"@, c.audio_source@, "output"@);
    reveal_strlit("--audio-encoder");
    lemma_dashed_name("--audio-encoder"@);
    let p2 = opt_spec("--audio-encoder"@, c.audio_encoder@, ""@);
    lemma_opt_dashed("--audio-encoder"@, c.audio_encoder@, ""@);
    reveal_strlit("--audio-bit-rate");
    lemma_dashed_name("--audio-bit-rate"@);
    let p3 = opt_spec("--audio-bit-rate"@, c.audio_bit_rate@, "128K"@);
    lemma_opt_dashed("--audio-bit-rate"@, c.audio_bit_rate@, "128K"@);
    reveal_strlit("--audio-buffer");
    lemma_dashed_name("--audio-buffer"@);
    let p4 = opt_spec("--audio-buffer"@, c.audio_buffer@, ""@);
    lemma_opt_dashed("--audio-buffer"@, c.audio_buffer@, ""@);
    reveal_strlit("--audio-output-buffer");
    lemma_dashed_name("--audio-output-buffer"@);
    let p5 = opt_spec("--audio-output-buffer"@, c.audio_output_buffer@, ""@);
    lemma_opt_dashed("--audio-output-buffer"@, c.audio_output_buffer@, ""@);
    lemma_dashed_concat(p0, p1);
    lemma_dashed_concat(p0 + p1, p2);
    lemma_dashed_concat(p0 + p1 + p2, p3);
    lemma_dashed_concat(p0 + p1 + p2 + p3, p4);
    lemma_dashed_concat(p0 + p1 + p2 + p3 + p4, p5);
    assert(audio_flags(c) == p0 + p1 + p2 + p3 + p4 + p5);
}

proof fn record_flags_are_dashed(c: PanelConfig)
    ensures
        dashed(record_flags(c)),
{
    reveal_strlit("--time-limit");
    lemma_dashed_name("--time-limit"@);
    let p0 = opt_spec("--time-limit"@, c.time_limit@, ""@);
    lemma_opt_dashed("--time-limit"@, c.time_limit@, ""@);
    reveal_strlit("--record-orientation");
    lemma_dashed_name("--record-orientation"@);
    let p1 = opt_spec("--record-orientation"@, c.record_orientation@, "0"@);
    lemma_opt_dashed("--record-orientation"@, c.record_orientation@, "0"@);
    lemma_dashed_concat(p0, p1);
    assert(record_flags(c) == p0 + p1);
}

proof fn input_flags_are_dashed(c: PanelConfig)
    ensures
        dashed(input_flags(c)),
{
    reveal_strlit("--keyboard");
    lemma_dashed_name("--keyboard"@);
    let p0 = opt_spec("--keyboard"@, c.keyboard@, "sdk"@);
    lemma_opt_dashed("--keyboard"@, c.keyboard@, "sdk"@);
    reveal_strlit("--mouse");
    lemma_dashed_name("--mouse"@);
    let p1 = opt_spec("--mouse"@, c.mouse@, "sdk"@);
    lemma_opt_dashed("--mouse"@, c.mouse@, "sdk"@);
    reveal_strlit("--gamepad");
    lemma_dashed_name("--gamepad"@);
    let p2 = opt_spec("--gamepad"@, c.gamepad@, "disabled"@);
    lemma_opt_dashed("--gamepad"@, c.gamepad@, "disabled"@);
    reveal_strlit("--shortcut-mod");
    lemma_dashed_name("--shortcut-mod"@);
    let p3 = opt_spec("--shortcut-mod"@, c.shortcut_mod@, "lalt"@);
    lemma_opt_dashed("--shortcut-mod"@, c.shortcut_mod@, "lalt"@);
    lemma_dashed_concat(p0, p1);
    lemma_dashed_concat(p0 + p1, p2);
    lemma_dashed_concat(p0 + p1 + p2, p3);
    assert(input_flags(c) == p0 + p1 + p2 + p3);
}

proof fn virtual_display_flags_are_dashed(c: PanelConfig)
    ensures
        dashed(virtual_display_flags(c)),
{
    reveal_strlit("--start-app");
    lemma_dashed_name("--start-app"@);
    let p0 = opt_spec("--start-app"@, c.start_app@, ""@);
    lemma_opt_dashed("--start-app"@, c.start_app@, ""@);
    assert(virtual_display_flags(c) == p0);
}

proof fn camera_flags_are_dashed(c: PanelConfig)
    ensures
        dashed(camera_flags(c)),
{
    if c.video_source@ == "camera"@ {
        reveal_strlit("--camera-facing");
        lemma_dashed_name("--camera-facing"@);
        let p0 = opt_spec("--camera-facing"@, c.camera_facing@, "back"@);
        lemma_opt_dashed("--camera-facing"@, c.camera_facing@, "back"@);
        reveal_strlit("--camera-id");
        lemma_dashed_name("--camera-id"@);
        let p1 = opt_spec("--camera-id"@, c.camera_id@, ""@);
        lemma_opt_dashed("--camera-id"@, c.camera_id@, ""@);
        reveal_strlit("--camera-size");
        lemma_dashed_name("--camera-size"@);
        let p2 = opt_spec("--camera-size"@, c.camera_size@, ""@);
        lemma_opt_dashed("--camera-size"@, c.camera_size@, ""@);
        reveal_strlit("--camera-ar");
        lemma_dashed_name("--camera-ar"@);
        let p3 = opt_spec("--camera-ar"@, c.camera_ar@, ""@);
        lemma_opt_dashed("--camera-ar"@, c.camera_ar@, ""@);
        reveal_strlit("--camera-fps");
        lemma_dashed_name("--camera-fps"@);
        let p4 = opt_spec("--camera-fps"@, c.camera_fps@, ""@);
        lemma_opt_dashed("--camera-fps"@, c.camera_fps@, ""@);
        lemma_dashed_concat(p0, p1);
        lemma_dashed_concat(p0 + p1, p2);
        lemma_dashed_concat(p0 + p1 + p2, p3);
        lemma_dashed_concat(p0 + p1 + p2 + p3, p4);
        assert(camera_flags(c) == p0 + p1 + p2 + p3 + p4);
    }
}

proof fn window_flags_are_dashed(c: PanelConfig)
    ensures
        dashed(window_flags(c)),
{
    reveal_strlit("--window-title");
    lemma_dashed_name("--window-title"@);
    let p0 = opt_spec("--window-title"@, c.window_title@, ""@);
    lemma_opt_dashed("--window-title"@, c.window_title@, ""@);
    reveal_strlit("--orientation");
    lemma_dashed_name("--orientation"@);
    let p1 = opt_spec("--orientation"@, c.orientation@, "0"@);
    lemma_opt_dashed("--orientation"@, c.orientation@, "0"@);
    reveal_strlit("--window-x");
    lemma_dashed_name("--window-x"@);
    let p2 = opt_spec("--window-x"@, c.window_x@, ""@);
    lemma_opt_dashed("--window-x"@, c.window_x@, ""@);
    reveal_strlit("--window-y");
    lemma_dashed_name("--window-y"@);
    let p3 = opt_spec("--window-y"@, c.window_y@, ""@);
    lemma_opt_dashed("--window-y"@, c.window_y@, ""@);
    reveal_strlit("--window-width");
    lemma_dashed_name("--window-width"@);
    let p4 = opt_spec("--window-width"@, c.window_width@, ""@);
    lemma_opt_dashed("--window-width"@, c.window_width@, ""@);
    reveal_strlit("--window-height");
    lemma_dashed_name("--window-height"@);
    let p5 = opt_spec("--window-height"@, c.window_height@, ""@);
    lemma_opt_dashed("--window-height"@, c.window_height@, ""@);
    lemma_dashed_concat(p0, p1);
    lemma_dashed_concat(p0 + p1, p2);
    lemma_dashed_concat(p0 + p1 + p2, p3);
    lemma_dashed_concat(p0 + p1 + p2 + p3, p4);
    lemma_dashed_concat(p0 + p1 + p2 + p3 + p4, p5);
    assert(window_flags(c) == p0 + p1 + p2 + p3 + p4 + p5);
}

proof fn network_flags_are_dashed(c: PanelConfig)
    ensures
        dashed(network_flags(c)),
{
    reveal_strlit("--serial");
    lemma_dashed_name("--serial"@);
    let p0 = opt_spec("--serial"@, c.serial@, ""@);
    lemma_opt_dashed("--serial"@, c.serial@, ""@);
    reveal_strlit("--port");
    lemma_dashed_name("--port"@);
    let p1 = opt_spec("--port"@, c.port@, ""@);
    lemma_opt_dashed("--port"@, c.port@, ""@);
    reveal_strlit("--tunnel-host");
    lemma_dashed_name("--tunnel-host"@);
    let p2 = opt_spec("--tunnel-host"@, c.tunnel_host@, ""@);
    lemma_opt_dashed("--tunnel-host"@, c.tunnel_host@, ""@);
    reveal_strlit("--tunnel-port");
    lemma_dashed_name("--tunnel-port"@);
    let p3 = opt_spec("--tunnel-port"@, c.tunnel_port@, ""@);
    lemma_opt_dashed("--tunnel-port"@, c.tunnel_port@, ""@);
    reveal_strlit("--verbosity");
    lemma_dashed_name("--verbosity"@);
    let p4 = opt_spec("--verbosity"@, c.verbosity@, "info"@);
    lemma_opt_dashed("--verbosity"@, c.verbosity@, "info"@);
    reveal_strlit("--clipboard-direction");
    lemma_dashed_name("--clipboard-direction"@);
    let p5 = opt_spec("--clipboard-direction"@, clipboard_direction_spec(c.clipboard_direction@), "both"@);
    lemma_opt_dashed("--clipboard-direction"@, clipboard_direction_spec(c.clipboard_direction@), "both"@);
    lemma_dashed_concat(p0, p1);
    lemma_dashed_concat(p0 + p1, p2);
    lemma_dashed_concat(p0 + p1 + p2, p3);
    lemma_dashed_concat(p0 + p1 + p2 + p3, p4);
    lemma_dashed_concat(p0 + p1 + p2 + p3 + p4, p5);
    assert(network_flags(c) == p0 + p1 + p2 + p3 + p4 + p5);
}

proof fn switch_flags_0_are_dashed(c: PanelConfig)
    ensures
        dashed(switch_flags_0(c)),
{
    reveal_strlit("--no-video");
    lemma_dashed_name("--no-video"@);
    let p0 = switch_spec(c.no_video, "--no-video"@);
    lemma_switch_dashed(c.no_video, "--no-video"@);
    reveal_strlit("--print-fps");
    lemma_dashed_name("--print-fps"@);
    let p1 = switch_spec(c.print_fps, "--print-fps"@);
    lemma_switch_dashed(c.print_fps, "--print-fps"@);
    reveal_strlit("--no-video-playback");
    lemma_dashed_name("--no-video-playback"@);
    let p2 = switch_spec(c.no_video_playback, "--no-video-playback"@);
    lemma_switch_dashed(c.no_video_playback, "--no-video-playback"@);
    reveal_strlit("--no-audio");
    lemma_dashed_name("--no-audio"@);
    let p3 = switch_spec(c.no_audio, "--no-audio"@);
    lemma_switch_dashed(c.no_audio, "--no-audio"@);
    reveal_strlit("--audio-dup");
    lemma_dashed_name("--audio-dup"@);
    let p4 = switch_spec(c.audio_dup, "--audio-dup"@);
    lemma_switch_dashed(c.audio_dup, "--audio-dup"@);
    reveal_strlit("--require-audio");
    lemma_dashed_name("--require-audio"@);
    let p5 = switch_spec(c.require_audio, "--require-audio"@);
    lemma_switch_dashed(c.require_audio, "--require-audio"@);
    reveal_strlit("--no-audio-playback");
    lemma_dashed_name("--no-audio-playback"@);
    let p6 = switch_spec(c.no_audio_playback, "--no-audio-playback"@);
    lemma_switch_dashed(c.no_audio_playback, "--no-audio-playback"@);
    reveal_strlit("--no-playback");
    lemma_dashed_name("--no-playback"@);
    let p7 = switch_spec(c.no_playback, "--no-playback"@);
    lemma_switch_dashed(c.no_playback, "--no-playback"@);
    reveal_strlit("--otg");
    lemma_dashed_name("--otg"@);
    let p8 = switch_spec(c.otg, "--otg"@);
    lemma_switch_dashed(c.otg, "--otg"@);
    lemma_dashed_concat(p0, p1);
    lemma_dashed_concat(p0 + p1, p2);
    lemma_dashed_concat(p0 + p1 + p2, p3);
    lemma_dashed_concat(p0 + p1 + p2 + p3, p4);
    lemma_dashed_concat(p0 + p1 + p2 + p3 + p4, p5);
    lemma_dashed_concat(p0 + p1 + p2 + p3 + p4 + p5, p6);
    lemma_dashed_concat(p0 + p1 + p2 + p3 + p4 + p5 + p6, p7);
    lemma_dashed_concat(p0 + p1 + p2 + p3 + p4 + p5 + p6 + p7, p8);
    assert(switch_flags_0(c) == p0 + p1 + p2 + p3 + p4 + p5 + p6 + p7 + p8);
}

proof fn switch_flags_1_are_dashed(c: PanelConfig)
    ensures
        dashed(switch_flags_1(c)),
{
    reveal_strlit("--no-control");
    lemma_dashed_name("--no-control"@);
    let p0 = switch_spec(c.no_control, "--no-control"@);
    lemma_switch_dashed(c.no_control, "--no-control"@);
    reveal_strlit("--no-clipboard-autosync");
    lemma_dashed_name("--no-clipboard-autosync"@);
    let p1 = switch_spec(c.no_clipboard_autosync, "--no-clipboard-autosync"@);
    lemma_switch_dashed(c.no_clipboard_autosync, "--no-clipboard-autosync"@);
    reveal_strlit("--forward-all-clicks");
    lemma_dashed_name("--forward-all-clicks"@);
    let p2 = switch_spec(c.forward_all_clicks, "--forward-all-clicks"@);
    lemma_switch_dashed(c.forward_all_clicks, "--forward-all-clicks"@);
    reveal_strlit("--legacy-paste");
    lemma_dashed_name("--legacy-paste"@);
    let p3 = switch_spec(c.legacy_paste, "--legacy-paste"@);
    lemma_switch_dashed(c.legacy_paste, "--legacy-paste"@);
    reveal_strlit("--prefer-text");
    lemma_dashed_name("--prefer-text"@);
    let p4 = switch_spec(c.prefer_text, "--prefer-text"@);
    lemma_switch_dashed(c.prefer_text, "--prefer-text"@);
    reveal_strlit("--raw-key-events");
    lemma_dashed_name("--raw-key-events"@);
    let p5 = switch_spec(c.raw_key_events, "--raw-key-events"@);
    lemma_switch_dashed(c.raw_key_events, "--raw-key-events"@);
    reveal_strlit("--no-vd-destroy-content");
    lemma_dashed_name("--no-vd-destroy-content"@);
    let p6 = switch_spec(c.no_vd_destroy_content, "--no-vd-destroy-content"@);
    lemma_switch_dashed(c.no_vd_destroy_content, "--no-vd-destroy-content"@);
    reveal_strlit("--no-vd-system-decorations");
    lemma_dashed_name("--no-vd-system-decorations"@);
    let p7 = switch_spec(c.no_vd_system_decorations, "--no-vd-system-decorations"@);
    lemma_switch_dashed(c.no_vd_system_decorations, "--no-vd-system-decorations"@);
    reveal_strlit("--camera-high-speed");
    lemma_dashed_name("--camera-high-speed"@);
    let p8 = switch_spec(c.camera_high_speed && c.video_source@ == "camera"@, "--camera-high-speed"@);
    lemma_switch_dashed(c.camera_high_speed && c.video_source@ == "camera"@, "--camera-high-speed"@);
    lemma_dashed_concat(p0, p1);
    lemma_dashed_concat(p0 + p1, p2);
    lemma_dashed_concat(p0 + p1 + p2, p3);
    lemma_dashed_concat(p0 + p1 + p2 + p3, p4);
    lemma_dashed_concat(p0 + p1 + p2 + p3 + p4, p5);
    lemma_dashed_concat(p0 + p1 + p2 + p3 + p4 + p5, p6);
    lemma_dashed_concat(p0 + p1 + p2 + p3 + p4 + p5 + p6, p7);
    lemma_dashed_concat(p0 + p1 + p2 + p3 + p4 + p5 + p6 + p7, p8);
    assert(switch_flags_1(c) == p0 + p1 + p2 + p3 + p4 + p5 + p6 + p7 + p8);
}

proof fn switch_flags_2_are_dashed(c: PanelConfig)
    ensures
        dashed(switch_flags_2(c)),
{
    reveal_strlit("--fullscreen");
    lemma_dashed_name("--fullscreen"@);
    let p0 = switch_spec(c.fullscreen, "--fullscreen"@);
    lemma_switch_dashed(c.fullscreen, "--fullscreen"@);
    reveal_strlit("--always-on-top");
    lemma_dashed_name("--always-on-top"@);
    let p1 = switch_spec(c.always_on_top, "--always-on-top"@);
    lemma_switch_dashed(c.always_on_top, "--always-on-top"@);
    reveal_strlit("--window-borderless");
    lemma_dashed_name("--window-borderless"@);
    let p2 = switch_spec(c.window_borderless, "--window-borderless"@);
    lemma_switch_dashed(c.window_borderless, "--window-borderless"@);
    reveal_strlit("--turn-screen-off");
    lemma_dashed_name("--turn-screen-off"@);
    let p3 = switch_spec(c.turn_screen_off, "--turn-screen-off"@);
    lemma_switch_dashed(c.turn_screen_off, "--turn-screen-off"@);
    reveal_strlit("--stay-awake");
    lemma_dashed_name("--stay-awake"@);
    let p4 = switch_spec(c.stay_awake, "--stay-awake"@);
    lemma_switch_dashed(c.stay_awake, "--stay-awake"@);
    reveal_strlit("--show-touches");
    lemma_dashed_name("--show-touches"@);
    let p5 = switch_spec(c.show_touches, "--show-touches"@);
    lemma_switch_dashed(c.show_touches, "--show-touches"@);
    reveal_strlit("--disable-screensaver");
    lemma_dashed_name("--disable-screensaver"@);
    let p6 = switch_spec(c.disable_screensaver, "--disable-screensaver"@);
    lemma_switch_dashed(c.disable_screensaver, "--disable-screensaver"@);
    reveal_strlit("--power-off-on-close");
    lemma_dashed_name("--power-off-on-close"@);
    let p7 = switch_spec(c.power_off_on_close, "--power-off-on-close"@);
    lemma_switch_dashed(c.power_off_on_close, "--power-off-on-close"@);
    lemma_dashed_concat(p0, p1);
    lemma_dashed_concat(p0 + p1, p2);
    lemma_dashed_concat(p0 + p1 + p2, p3);
    lemma_dashed_concat(p0 + p1 + p2 + p3, p4);
    lemma_dashed_concat(p0 + p1 + p2 + p3 + p4, p5);
    lemma_dashed_concat(p0 + p1 + p2 + p3 + p4 + p5, p6);
    lemma_dashed_concat(p0 + p1 + p2 + p3 + p4 + p5 + p6, p7);
    assert(switch_flags_2(c) == p0 + p1 + p2 + p3 + p4 + p5 + p6 + p7);
}

proof fn switch_flags_3_are_dashed(c: PanelConfig)
    ensures
        dashed(switch_flags_3(c)),
{
    reveal_strlit("--no-power-on");
    lemma_dashed_name("--no-power-on"@);
    let p0 = switch_spec(c.no_power_on, "--no-power-on"@);
    lemma_switch_dashed(c.no_power_on, "--no-power-on"@);
    reveal_strlit("--no-mipmaps");
    lemma_dashed_name("--no-mipmaps"@);
    let p1 = switch_spec(c.no_mipmaps, "--no-mipmaps"@);
    lemma_switch_dashed(c.no_mipmaps, "--no-mipmaps"@);
    reveal_strlit("--force-adb-forward");
    lemma_dashed_name("--force-adb-forward"@);
    let p2 = switch_spec(c.force_adb_forward, "--force-adb-forward"@);
    lemma_switch_dashed(c.force_adb_forward, "--force-adb-forward"@);
    reveal_strlit("--select-usb");
    lemma_dashed_name("--select-usb"@);
    let p3 = switch_spec(c.select_usb, "--select-usb"@);
    lemma_switch_dashed(c.select_usb, "--select-usb"@);
    reveal_strlit("--select-tcpip");
    lemma_dashed_name("--select-tcpip"@);
    let p4 = switch_spec(c.select_tcpip, "--select-tcpip"@);
    lemma_switch_dashed(c.select_tcpip, "--select-tcpip"@);
    reveal_strlit("--kill-adb-on-close");
    lemma_dashed_name("--kill-adb-on-close"@);
    let p5 = switch_spec(c.kill_adb_on_close, "--kill-adb-on-close"@);
    lemma_switch_dashed(c.kill_adb_on_close, "--kill-adb-on-close"@);
    reveal_strlit("--no-cleanup");
    lemma_dashed_name("--no-cleanup"@);
    let p6 = switch_spec(c.no_cleanup, "--no-cleanup"@);
    lemma_switch_dashed(c.no_cleanup, "--no-cleanup"@);
    lemma_dashed_concat(p0, p1);
    lemma_dashed_concat(p0 + p1, p2);
    lemma_dashed_concat(p0 + p1 + p2, p3);
    lemma_dashed_concat(p0 + p1 + p2 + p3, p4);
    lemma_dashed_concat(p0 + p1 + p2 + p3 + p4, p5);
    lemma_dashed_concat(p0 + p1 + p2 + p3 + p4 + p5, p6);
    assert(switch_flags_3(c) == p0 + p1 + p2 + p3 + p4 + p5 + p6);
}

proof fn switch_flags_are_dashed(c: PanelConfig)
    ensures
        dashed(switch_flags(c)),
{
    switch_flags_0_are_dashed(c);
    switch_flags_1_are_dashed(c);
    switch_flags_2_are_dashed(c);
    switch_flags_3_are_dashed(c);
    lemma_dashed_concat(switch_flags_0(c), switch_flags_1(c));
    lemma_dashed_concat(switch_flags_0(c) + switch_flags_1(c), switch_flags_2(c));
    lemma_dashed_concat(switch_flags_0(c) + switch_flags_1(c) + switch_flags_2(c), switch_flags_3(c));
}

proof fn valued_switch_flags_are_dashed(c: PanelConfig, stamp: u64)
    ensures
        dashed(valued_switch_flags(c, stamp)),
{
    reveal_strlit("--v4l2-sink");
    lemma_dashed_name("--v4l2-sink"@);
    reveal_strlit("--v4l2-buffer");
    lemma_dashed_name("--v4l2-buffer"@);
    reveal_strlit("--mouse-bind");
    lemma_dashed_name("--mouse-bind"@);
    reveal_strlit("--new-display");
    lemma_dashed_name("--new-display"@);
    reveal_strlit("--tcpip");
    lemma_dashed_name("--tcpip"@);
    reveal_strlit("--record");
    lemma_dashed_name("--record"@);
    reveal_strlit("--record-format");
    lemma_dashed_name("--record-format"@);
    let v4 = v4l2_flags(c);
    if c.v4l2_sink@.len() > 0 {
        lemma_dashed_one(assign("--v4l2-sink"@, c.v4l2_sink@));
        if c.v4l2_buffer@.len() > 0 {
            lemma_dashed_one(assign("--v4l2-buffer"@, c.v4l2_buffer@));
        }
        lemma_dashed_concat(
            seq![assign("--v4l2-sink"@, c.v4l2_sink@)],
            if c.v4l2_buffer@.len() > 0 { seq![assign("--v4l2-buffer"@, c.v4l2_buffer@)] } else { Seq::empty() },
        );
    }
    let mb = mouse_bind_flags(c);
    let nd = new_display_flags(c);
    let tc = tcpip_flags(c);
    let ro = record_output_flags(c, stamp);
    if c.record_enabled && c.record_path@.len() > 0 {
        lemma_dashed_one(assign("--record"@, record_path_spec(c, stamp)));
        if c.record_format@ != "mp4"@ {
            lemma_dashed_one(assign("--record-format"@, c.record_format@));
        }
        lemma_dashed_concat(
            seq![assign("--record"@, record_path_spec(c, stamp))],
            if c.record_format@ != "mp4"@ { seq![assign("--record-format"@, c.record_format@)] } else { Seq::empty() },
        );
    }
    assert(dashed(v4));
    assert(dashed(mb));
    assert(dashed(nd));
    assert(dashed(tc));
    assert(dashed(ro));
    lemma_dashed_concat(v4, mb);
    lemma_dashed_concat(v4 + mb, nd);
    lemma_dashed_concat(v4 + mb + nd, tc);
    lemma_dashed_concat(v4 + mb + nd + tc, ro);
}

/// Every flag the form produces is an option, beginning with `--`, whatever
/// the form holds.
pub proof fn every_flag_is_an_option(c: PanelConfig, stamp: u64)
    ensures
        dashed(flags_spec(c, stamp)),
{
    video_flags_are_dashed(c);
    audio_flags_are_dashed(c);
    record_flags_are_dashed(c);
    input_flags_are_dashed(c);
    virtual_display_flags_are_dashed(c);
    camera_flags_are_dashed(c);
    window_flags_are_dashed(c);
    network_flags_are_dashed(c);
    switch_flags_are_dashed(c);
    valued_switch_flags_are_dashed(c, stamp);
    let a0 = video_flags(c) + audio_flags(c);
    lemma_dashed_concat(video_flags(c), audio_flags(c));
    lemma_dashed_concat(a0, record_flags(c));
    let a1 = a0 + record_flags(c);
    lemma_dashed_concat(a1, input_flags(c));
    let a2 = a1 + input_flags(c);
    lemma_dashed_concat(a2, virtual_display_flags(c));
    let a3 = a2 + virtual_display_flags(c);
    lemma_dashed_concat(a3, camera_flags(c));
    let a4 = a3 + camera_flags(c);
    lemma_dashed_concat(a4, window_flags(c));
    let a5 = a4 + window_flags(c);
    lemma_dashed_concat(a5, network_flags(c));
    let a6 = a5 + network_flags(c);
    lemma_dashed_concat(a6, switch_flags(c));
    let a7 = a6 + switch_flags(c);
    lemma_dashed_concat(a7, valued_switch_flags(c, stamp));
}

/// What each piece of the form says: a value option is `--name=value` when
/// the value is filled in and differs from its default, and nothing
/// otherwise; a switch is `--name` when it is on, and nothing otherwise.
pub proof fn each_option_says_its_value_or_nothing(name: Seq<char>, value: Seq<char>, default: Seq<char>, on: bool)
    ensures
        opt_spec(name, value, default) == (if value.len() > 0 && value != default {
            seq![assign(name, value)]
        } else {
            Seq::<Seq<char>>::empty()
        }),
        switch_spec(on, name) == (if on { seq![name] } else { Seq::<Seq<char>>::empty() }),
{
    reveal(opt_spec);
    reveal(switch_spec);
}

/// The options that need a box ticked: `--tcpip` comes exactly when it is
/// ticked and has an address, `--record` exactly when recording is on and
/// has a path, and `--record-format` only beside it, for a format other
/// than mp4; the camera's options come only for the camera.
pub proof fn boxed_options_come_with_their_box(c: PanelConfig, stamp: u64)
    ensures
        tcpip_flags(c).len() > 0 <==> c.tcpip_enabled && c.tcpip_addr@.len() > 0,
        tcpip_flags(c).len() > 0 ==> tcpip_flags(c) == seq![assign("--tcpip"@, c.tcpip_addr@)],
        record_output_flags(c, stamp).len() > 0 <==> c.record_enabled && c.record_path@.len() > 0,
        record_output_flags(c, stamp).len() > 0 ==> record_output_flags(c, stamp)[0] == assign("--record"@, record_path_spec(c, stamp)),
        record_output_flags(c, stamp).len() == 2 <==> (c.record_enabled && c.record_path@.len() > 0 && c.record_format@ != "mp4"@),
        record_output_flags(c, stamp).len() == 2 ==> record_output_flags(c, stamp)[1] == assign("--record-format"@, c.record_format@),
        record_output_flags(c, stamp).len() <= 2,
        c.video_source@ != "camera"@ ==> camera_flags(c).len() == 0,
{
}


// `x` in either part is in the whole.
proof fn lemma_in_concat(a: Seq<Seq<char>>, b: Seq<Seq<char>>, x: Seq<char>)
    ensures
        a.contains(x) || b.contains(x) ==> (a + b).contains(x),
{
    if a.contains(x) {
        let i = choose|i: int| 0 <= i < a.len() && a[i] == x;
        assert((a + b)[i] == x);
    } else if b.contains(x) {
        let i = choose|i: int| 0 <= i < b.len() && b[i] == x;
        assert((a + b)[a.len() + i] == x);
    }
}

/// The clipboard direction reaches the client in scrcpy's own spelling: a
/// form that stores it as `toDevice` or `toPc` asks for
/// `--clipboard-direction=to-device` or `--clipboard-direction=to-pc`.
pub proof fn the_clipboard_direction_is_spelled_for_the_client(c: PanelConfig, stamp: u64)
    ensures
        c.clipboard_direction@ == "toPc"@ ==> flags_spec(c, stamp).contains(assign("--clipboard-direction"@, "to-pc"@)),
        c.clipboard_direction@ == "toDevice"@ ==> flags_spec(c, stamp).contains(
            assign("--clipboard-direction"@, "to-device"@),
        ),
{
    reveal_strlit("toPc");
    reveal_strlit("toDevice");
    reveal_strlit("to-pc");
    reveal_strlit("to-device");
    reveal_strlit("both");
    reveal(opt_spec);
    assert("toPc"@.len() == 4 && "toDevice"@.len() == 8);
    assert("toPc"@ != "toDevice"@);
    let d = clipboard_direction_spec(c.clipboard_direction@);
    let name = "--clipboard-direction"@;
    let p0 = opt_spec("--serial"@, c.serial@, ""@);
    let p1 = opt_spec("--port"@, c.port@, ""@);
    let p2 = opt_spec("--tunnel-host"@, c.tunnel_host@, ""@);
    let p3 = opt_spec("--tunnel-port"@, c.tunnel_port@, ""@);
    let p4 = opt_spec("--verbosity"@, c.verbosity@, "info"@);
    let p5 = opt_spec(name, d, "both"@);
    assert(network_flags(c) == p0 + p1 + p2 + p3 + p4 + p5);
    if c.clipboard_direction@ == "toPc"@ || c.clipboard_direction@ == "toDevice"@ {
        let x = assign(name, d);
        assert(d == "to-pc"@ || d == "to-device"@);
        assert(d != "both"@);
        assert(p5 == seq![x]);
        assert(p5[0] == x);
        lemma_in_concat(p0 + p1 + p2 + p3 + p4, p5, x);
        let a0 = video_flags(c) + audio_flags(c) + record_flags(c) + input_flags(c) + virtual_display_flags(c)
            + camera_flags(c) + window_flags(c);
        lemma_in_concat(a0, network_flags(c), x);
        lemma_in_concat(a0 + network_flags(c), switch_flags(c), x);
        lemma_in_concat(a0 + network_flags(c) + switch_flags(c), valued_switch_flags(c, stamp), x);
        assert(flags_spec(c, stamp) == a0 + network_flags(c) + switch_flags(c) + valued_switch_flags(c, stamp));
        assert(c.clipboard_direction@ == "toPc"@ ==> d == "to-pc"@);
        assert(c.clipboard_direction@ == "toDevice"@ ==> d == "to-device"@);
    }
}

} // verus!
