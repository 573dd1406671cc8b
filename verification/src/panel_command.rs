//! Turning the panel's form state into a command line.
//!
//! The panel produces two things from the same state. The first is the
//! command shown in the bar at the bottom: canonical scrcpy flags, so it can
//! be copied into a terminal. The second is the argument list this client is
//! actually launched with, which is a subset — flags this client does not act
//! on are left out, and the panel says which.
//!
//! A value only becomes a flag when it differs from its default, which is
//! what keeps the command readable: an untouched form produces `scrcpy`.

use vstd::prelude::*;
use crate::text::{
    append, chars_of, decimal, has_prefix, owned, parse_range, parse_unsigned, push_char,
    string_of_range, text_eq, trim, trim_bounds,
};
use crate::paths::{find_last, last_index_of};
use crate::options::first_index_of;

verus! {

/// Every control in the configuration form.
///
/// Numeric fields are strings because the form has to tell "empty, use the
/// device default" apart from "zero"; they become flags as written.
pub struct PanelConfig {
    pub video_source: String,
    pub video_codec: String,
    pub video_encoder: String,
    pub video_bit_rate: String,
    pub max_size: String,
    pub max_fps: String,
    pub crop: String,
    pub display_id: String,
    pub video_buffer: String,
    pub display_orientation: String,
    pub no_video: bool,
    pub print_fps: bool,
    pub no_video_playback: bool,
    pub v4l2_sink: String,
    pub v4l2_buffer: String,
    pub audio_codec: String,
    pub audio_source: String,
    pub audio_encoder: String,
    pub audio_bit_rate: String,
    pub audio_buffer: String,
    pub audio_output_buffer: String,
    pub no_audio: bool,
    pub audio_dup: bool,
    pub require_audio: bool,
    pub no_audio_playback: bool,
    pub record_enabled: bool,
    pub record_path: String,
    pub record_format: String,
    pub time_limit: String,
    pub record_orientation: String,
    pub no_playback: bool,
    pub record_timestamp: bool,
    pub keyboard: String,
    pub mouse: String,
    pub gamepad: String,
    pub shortcut_mod: String,
    pub key_layout: String,
    pub clipboard_direction: String,
    pub otg: bool,
    pub no_control: bool,
    pub no_clipboard_autosync: bool,
    pub forward_all_clicks: bool,
    pub legacy_paste: bool,
    pub prefer_text: bool,
    pub raw_key_events: bool,
    pub mouse_bind_enabled: bool,
    pub mouse_bind: String,
    pub new_display_enabled: bool,
    pub new_display: String,
    pub start_app: String,
    pub no_vd_destroy_content: bool,
    pub no_vd_system_decorations: bool,
    pub camera_facing: String,
    pub camera_id: String,
    pub camera_size: String,
    pub camera_ar: String,
    pub camera_fps: String,
    pub camera_high_speed: bool,
    pub window_title: String,
    pub orientation: String,
    pub window_x: String,
    pub window_y: String,
    pub window_width: String,
    pub window_height: String,
    pub fullscreen: bool,
    pub always_on_top: bool,
    pub window_borderless: bool,
    pub turn_screen_off: bool,
    pub stay_awake: bool,
    pub show_touches: bool,
    pub disable_screensaver: bool,
    pub power_off_on_close: bool,
    pub no_power_on: bool,
    pub no_mipmaps: bool,
    pub serial: String,
    pub port: String,
    pub tcpip_addr: String,
    pub tunnel_host: String,
    pub tunnel_port: String,
    pub verbosity: String,
    pub tcpip_enabled: bool,
    pub force_adb_forward: bool,
    pub select_usb: bool,
    pub select_tcpip: bool,
    pub kill_adb_on_close: bool,
    pub no_cleanup: bool,
}

impl Default for PanelConfig {
    /// The form as the panel first shows it.
    fn default() -> (c: Self)
        ensures
            c.video_source@ == "display"@,
            c.video_codec@ == "h264"@,
            c.video_encoder@ == ""@,
            c.video_bit_rate@ == "8M"@,
            c.max_size@ == ""@,
            c.max_fps@ == ""@,
            c.crop@ == ""@,
            c.display_id@ == ""@,
            c.video_buffer@ == ""@,
            c.display_orientation@ == "0"@,
            c.no_video == false,
            c.print_fps == false,
            c.no_video_playback == false,
            c.v4l2_sink@ == ""@,
            c.v4l2_buffer@ == ""@,
            c.audio_codec@ == "opus"@,
            c.audio_source@ == "output"@,
            c.audio_encoder@ == ""@,
            c.audio_bit_rate@ == "128K"@,
            c.audio_buffer@ == ""@,
            c.audio_output_buffer@ == ""@,
            c.no_audio == false,
            c.audio_dup == false,
            c.require_audio == false,
            c.no_audio_playback == false,
            c.record_enabled == false,
            c.record_path@ == ""@,
            c.record_format@ == "mp4"@,
            c.time_limit@ == ""@,
            c.record_orientation@ == "0"@,
            c.no_playback == false,
            c.record_timestamp == true,
            c.keyboard@ == "sdk"@,
            c.mouse@ == "sdk"@,
            c.gamepad@ == "disabled"@,
            c.shortcut_mod@ == "lalt"@,
            c.key_layout@ == ""@,
            c.clipboard_direction@ == "both"@,
            c.otg == false,
            c.no_control == false,
            c.no_clipboard_autosync == false,
            c.forward_all_clicks == false,
            c.legacy_paste == false,
            c.prefer_text == false,
            c.raw_key_events == false,
            c.mouse_bind_enabled == false,
            c.mouse_bind@ == "++++"@,
            c.new_display_enabled == false,
            c.new_display@ == ""@,
            c.start_app@ == ""@,
            c.no_vd_destroy_content == false,
            c.no_vd_system_decorations == false,
            c.camera_facing@ == "back"@,
            c.camera_id@ == ""@,
            c.camera_size@ == ""@,
            c.camera_ar@ == ""@,
            c.camera_fps@ == ""@,
            c.camera_high_speed == false,
            c.window_title@ == ""@,
            c.orientation@ == "0"@,
            c.window_x@ == ""@,
            c.window_y@ == ""@,
            c.window_width@ == ""@,
            c.window_height@ == ""@,
            c.fullscreen == false,
            c.always_on_top == false,
            c.window_borderless == false,
            c.turn_screen_off == false,
            c.stay_awake == false,
            c.show_touches == false,
            c.disable_screensaver == false,
            c.power_off_on_close == false,
            c.no_power_on == false,
            c.no_mipmaps == false,
            c.serial@ == ""@,
            c.port@ == ""@,
            c.tcpip_addr@ == ""@,
            c.tunnel_host@ == ""@,
            c.tunnel_port@ == ""@,
            c.verbosity@ == "info"@,
            c.tcpip_enabled == false,
            c.force_adb_forward == false,
            c.select_usb == false,
            c.select_tcpip == false,
            c.kill_adb_on_close == false,
            c.no_cleanup == false,
    {
        PanelConfig {
            video_source: owned("display"),
            video_codec: owned("h264"),
            video_encoder: owned(""),
            video_bit_rate: owned("8M"),
            max_size: owned(""),
            max_fps: owned(""),
            crop: owned(""),
            display_id: owned(""),
            video_buffer: owned(""),
            display_orientation: owned("0"),
            no_video: false,
            print_fps: false,
            no_video_playback: false,
            v4l2_sink: owned(""),
            v4l2_buffer: owned(""),
            audio_codec: owned("opus"),
            audio_source: owned("output"),
            audio_encoder: owned(""),
            audio_bit_rate: owned("128K"),
            audio_buffer: owned(""),
            audio_output_buffer: owned(""),
            no_audio: false,
            audio_dup: false,
            require_audio: false,
            no_audio_playback: false,
            record_enabled: false,
            record_path: owned(""),
            record_format: owned("mp4"),
            time_limit: owned(""),
            record_orientation: owned("0"),
            no_playback: false,
            record_timestamp: true,
            keyboard: owned("sdk"),
            mouse: owned("sdk"),
            gamepad: owned("disabled"),
            shortcut_mod: owned("lalt"),
            key_layout: owned(""),
            clipboard_direction: owned("both"),
            otg: false,
            no_control: false,
            no_clipboard_autosync: false,
            forward_all_clicks: false,
            legacy_paste: false,
            prefer_text: false,
            raw_key_events: false,
            mouse_bind_enabled: false,
            mouse_bind: owned("++++"),
            new_display_enabled: false,
            new_display: owned(""),
            start_app: owned(""),
            no_vd_destroy_content: false,
            no_vd_system_decorations: false,
            camera_facing: owned("back"),
            camera_id: owned(""),
            camera_size: owned(""),
            camera_ar: owned(""),
            camera_fps: owned(""),
            camera_high_speed: false,
            window_title: owned(""),
            orientation: owned("0"),
            window_x: owned(""),
            window_y: owned(""),
            window_width: owned(""),
            window_height: owned(""),
            fullscreen: false,
            always_on_top: false,
            window_borderless: false,
            turn_screen_off: false,
            stay_awake: false,
            show_touches: false,
            disable_screensaver: false,
            power_off_on_close: false,
            no_power_on: false,
            no_mipmaps: false,
            serial: owned(""),
            port: owned(""),
            tcpip_addr: owned(""),
            tunnel_host: owned(""),
            tunnel_port: owned(""),
            verbosity: owned("info"),
            tcpip_enabled: false,
            force_adb_forward: false,
            select_usb: false,
            select_tcpip: false,
            kill_adb_on_close: false,
            no_cleanup: false,
        }
    }
}

/// The characters of each string, in order.
pub open spec fn views(v: Seq<String>) -> Seq<Seq<char>> {
    v.map_values(|s: String| s@)
}

/// `name=value`.
pub open spec fn assign(name: Seq<char>, value: Seq<char>) -> Seq<char> {
    name.push('=') + value
}

/// A value option: a flag only when it says something and differs from its
/// default.
#[verifier::opaque]
pub open spec fn opt_spec(name: Seq<char>, value: Seq<char>, default: Seq<char>) -> Seq<Seq<char>> {
    if value.len() > 0 && value != default {
        seq![assign(name, value)]
    } else {
        Seq::empty()
    }
}

/// A switch: the flag when it is on.
#[verifier::opaque]
pub open spec fn switch_spec(on: bool, name: Seq<char>) -> Seq<Seq<char>> {
    if on {
        seq![name]
    } else {
        Seq::empty()
    }
}

/// The dashed spelling of a clipboard direction the panel stores in camelCase.
pub open spec fn clipboard_direction_spec(d: Seq<char>) -> Seq<char> {
    if d == "toDevice"@ {
        "to-device"@
    } else if d == "toPc"@ {
        "to-pc"@
    } else {
        d
    }
}

/// The video options.
pub open spec fn video_flags(c: PanelConfig) -> Seq<Seq<char>> {
    opt_spec("--video-source"@, c.video_source@, "display"@)
        + opt_spec("--video-codec"@, c.video_codec@, "h264"@)
        + opt_spec("--video-encoder"@, c.video_encoder@, ""@)
        + opt_spec("--video-bit-rate"@, c.video_bit_rate@, "8M"@)
        + opt_spec("--max-size"@, c.max_size@, ""@)
        + opt_spec("--max-fps"@, c.max_fps@, ""@)
        + opt_spec("--crop"@, c.crop@, ""@)
        + opt_spec("--display-id"@, c.display_id@, ""@)
        + opt_spec("--video-buffer"@, c.video_buffer@, ""@)
        + opt_spec("--display-orientation"@, c.display_orientation@, "0"@)
}

/// The audio options.
pub open spec fn audio_flags(c: PanelConfig) -> Seq<Seq<char>> {
    opt_spec("--audio-codec"@, c.audio_codec@, "opus"@)
        + opt_spec("--audio-source"@, c.audio_source@, "output"@)
        + opt_spec("--audio-encoder"@, c.audio_encoder@, ""@)
        + opt_spec("--audio-bit-rate"@, c.audio_bit_rate@, "128K"@)
        + opt_spec("--audio-buffer"@, c.audio_buffer@, ""@)
        + opt_spec("--audio-output-buffer"@, c.audio_output_buffer@, ""@)
}

/// The recording options that are values.
pub open spec fn record_flags(c: PanelConfig) -> Seq<Seq<char>> {
    opt_spec("--time-limit"@, c.time_limit@, ""@)
        + opt_spec("--record-orientation"@, c.record_orientation@, "0"@)
}

/// The input options.
pub open spec fn input_flags(c: PanelConfig) -> Seq<Seq<char>> {
    opt_spec("--keyboard"@, c.keyboard@, "sdk"@)
        + opt_spec("--mouse"@, c.mouse@, "sdk"@)
        + opt_spec("--gamepad"@, c.gamepad@, "disabled"@)
        + opt_spec("--shortcut-mod"@, c.shortcut_mod@, "lalt"@)
}

/// The virtual display option.
pub open spec fn virtual_display_flags(c: PanelConfig) -> Seq<Seq<char>> {
    opt_spec("--start-app"@, c.start_app@, ""@)
}

/// The camera options, which mean something only for the camera source.
pub open spec fn camera_flags(c: PanelConfig) -> Seq<Seq<char>> {
    if c.video_source@ == "camera"@ {
        opt_spec("--camera-facing"@, c.camera_facing@, "back"@)
        + opt_spec("--camera-id"@, c.camera_id@, ""@)
        + opt_spec("--camera-size"@, c.camera_size@, ""@)
        + opt_spec("--camera-ar"@, c.camera_ar@, ""@)
        + opt_spec("--camera-fps"@, c.camera_fps@, ""@)
    } else {
        Seq::empty()
    }
}

/// The window options.
pub open spec fn window_flags(c: PanelConfig) -> Seq<Seq<char>> {
    opt_spec("--window-title"@, c.window_title@, ""@)
        + opt_spec("--orientation"@, c.orientation@, "0"@)
        + opt_spec("--window-x"@, c.window_x@, ""@)
        + opt_spec("--window-y"@, c.window_y@, ""@)
        + opt_spec("--window-width"@, c.window_width@, ""@)
        + opt_spec("--window-height"@, c.window_height@, ""@)
}

/// The network and adb options.
pub open spec fn network_flags(c: PanelConfig) -> Seq<Seq<char>> {
    opt_spec("--serial"@, c.serial@, ""@)
        + opt_spec("--port"@, c.port@, ""@)
        + opt_spec("--tunnel-host"@, c.tunnel_host@, ""@)
        + opt_spec("--tunnel-port"@, c.tunnel_port@, ""@)
        + opt_spec("--verbosity"@, c.verbosity@, "info"@)
        + opt_spec("--clipboard-direction"@, clipboard_direction_spec(c.clipboard_direction@), "both"@)
}

/// Switches, part 1.
pub open spec fn switch_flags_0(c: PanelConfig) -> Seq<Seq<char>> {
    switch_spec(c.no_video, "--no-video"@)
        + switch_spec(c.print_fps, "--print-fps"@)
        + switch_spec(c.no_video_playback, "--no-video-playback"@)
        + switch_spec(c.no_audio, "--no-audio"@)
        + switch_spec(c.audio_dup, "--audio-dup"@)
        + switch_spec(c.require_audio, "--require-audio"@)
        + switch_spec(c.no_audio_playback, "--no-audio-playback"@)
        + switch_spec(c.no_playback, "--no-playback"@)
        + switch_spec(c.otg, "--otg"@)
}

/// Switches, part 2.
pub open spec fn switch_flags_1(c: PanelConfig) -> Seq<Seq<char>> {
    switch_spec(c.no_control, "--no-control"@)
        + switch_spec(c.no_clipboard_autosync, "--no-clipboard-autosync"@)
        + switch_spec(c.forward_all_clicks, "--forward-all-clicks"@)
        + switch_spec(c.legacy_paste, "--legacy-paste"@)
        + switch_spec(c.prefer_text, "--prefer-text"@)
        + switch_spec(c.raw_key_events, "--raw-key-events"@)
        + switch_spec(c.no_vd_destroy_content, "--no-vd-destroy-content"@)
        + switch_spec(c.no_vd_system_decorations, "--no-vd-system-decorations"@)
        + switch_spec(c.camera_high_speed && c.video_source@ == "camera"@, "--camera-high-speed"@)
}

/// Switches, part 3.
pub open spec fn switch_flags_2(c: PanelConfig) -> Seq<Seq<char>> {
    switch_spec(c.fullscreen, "--fullscreen"@)
        + switch_spec(c.always_on_top, "--always-on-top"@)
        + switch_spec(c.window_borderless, "--window-borderless"@)
        + switch_spec(c.turn_screen_off, "--turn-screen-off"@)
        + switch_spec(c.stay_awake, "--stay-awake"@)
        + switch_spec(c.show_touches, "--show-touches"@)
        + switch_spec(c.disable_screensaver, "--disable-screensaver"@)
        + switch_spec(c.power_off_on_close, "--power-off-on-close"@)
}

/// Switches, part 4.
pub open spec fn switch_flags_3(c: PanelConfig) -> Seq<Seq<char>> {
    switch_spec(c.no_power_on, "--no-power-on"@)
        + switch_spec(c.no_mipmaps, "--no-mipmaps"@)
        + switch_spec(c.force_adb_forward, "--force-adb-forward"@)
        + switch_spec(c.select_usb, "--select-usb"@)
        + switch_spec(c.select_tcpip, "--select-tcpip"@)
        + switch_spec(c.kill_adb_on_close, "--kill-adb-on-close"@)
        + switch_spec(c.no_cleanup, "--no-cleanup"@)
}

/// The switches that are their own flag.
pub open spec fn switch_flags(c: PanelConfig) -> Seq<Seq<char>> {
    switch_flags_0(c) + switch_flags_1(c) + switch_flags_2(c) + switch_flags_3(c)
}

/// The recording path with a timestamp folded in, when the form asks for
/// one: before the last `.` if there is one, else at the end.
pub open spec fn record_path_spec(c: PanelConfig, stamp: u64) -> Seq<char> {
    let path = c.record_path@;
    if !c.record_timestamp || path.len() == 0 {
        path
    } else {
        match last_index_of(path, '.') {
            Some(i) => path.subrange(0, i).push('-') + decimal(stamp as nat) + seq!['.'] + path.subrange(i + 1, path.len() as int),
            None => path.push('-') + decimal(stamp as nat),
        }
    }
}

/// `--v4l2-sink`, and its buffer with it.
pub open spec fn v4l2_flags(c: PanelConfig) -> Seq<Seq<char>> {
    if c.v4l2_sink@.len() > 0 {
        seq![assign("--v4l2-sink"@, c.v4l2_sink@)] + (if c.v4l2_buffer@.len() > 0 {
            seq![assign("--v4l2-buffer"@, c.v4l2_buffer@)]
        } else {
            Seq::empty()
        })
    } else {
        Seq::empty()
    }
}

/// `--mouse-bind`, when it is ticked and says something.
pub open spec fn mouse_bind_flags(c: PanelConfig) -> Seq<Seq<char>> {
    if c.mouse_bind_enabled && c.mouse_bind@.len() > 0 {
        seq![assign("--mouse-bind"@, c.mouse_bind@)]
    } else {
        Seq::empty()
    }
}

/// `--new-display`, bare when no size is given.
pub open spec fn new_display_flags(c: PanelConfig) -> Seq<Seq<char>> {
    if c.new_display_enabled {
        if c.new_display@.len() == 0 {
            seq!["--new-display"@]
        } else {
            seq![assign("--new-display"@, c.new_display@)]
        }
    } else {
        Seq::empty()
    }
}

/// `--tcpip`, which needs an address to mean anything.
pub open spec fn tcpip_flags(c: PanelConfig) -> Seq<Seq<char>> {
    if c.tcpip_enabled && c.tcpip_addr@.len() > 0 {
        seq![assign("--tcpip"@, c.tcpip_addr@)]
    } else {
        Seq::empty()
    }
}

/// `--record`, and its format when that is not the default.
pub open spec fn record_output_flags(c: PanelConfig, stamp: u64) -> Seq<Seq<char>> {
    if c.record_enabled && c.record_path@.len() > 0 {
        seq![assign("--record"@, record_path_spec(c, stamp))] + (if c.record_format@ != "mp4"@ {
            seq![assign("--record-format"@, c.record_format@)]
        } else {
            Seq::empty()
        })
    } else {
        Seq::empty()
    }
}

/// The switches that carry a value only when they are on.
pub open spec fn valued_switch_flags(c: PanelConfig, stamp: u64) -> Seq<Seq<char>> {
    v4l2_flags(c) + mouse_bind_flags(c) + new_display_flags(c) + tcpip_flags(c)
        + record_output_flags(c, stamp)
}

/// The command's flags, with `stamp` as the time a recording is named for.
pub open spec fn flags_spec(c: PanelConfig, stamp: u64) -> Seq<Seq<char>> {
    video_flags(c) + audio_flags(c) + record_flags(c) + input_flags(c) + virtual_display_flags(c)
        + camera_flags(c) + window_flags(c) + network_flags(c) + switch_flags(c)
        + valued_switch_flags(c, stamp)
}

/// The flags this client's own command line understands and acts on.
pub const SUPPORTED: [&'static str; 76] = [
    "--video-source",
    "--video-codec",
    "--video-encoder",
    "--video-bit-rate",
    "--max-size",
    "--max-fps",
    "--crop",
    "--display-id",
    "--video-buffer",
    "--no-video",
    "--print-fps",
    "--audio-codec",
    "--audio-source",
    "--audio-encoder",
    "--audio-bit-rate",
    "--audio-buffer",
    "--no-audio",
    "--v4l2-sink",
    "--v4l2-buffer",
    "--no-audio-playback",
    "--no-video-playback",
    "--no-playback",
    "--audio-output-buffer",
    "--mouse-bind",
    "--audio-dup",
    "--require-audio",
    "--record",
    "--record-format",
    "--time-limit",
    "--keyboard",
    "--mouse",
    "--shortcut-mod",
    "--no-control",
    "--no-clipboard-autosync",
    "--forward-all-clicks",
    "--prefer-text",
    "--raw-key-events",
    "--verbosity",
    "--tunnel-host",
    "--tunnel-port",
    "--port",
    "--select-usb",
    "--select-tcpip",
    "--window-borderless",
    "--no-power-on",
    "--no-vd-destroy-content",
    "--no-vd-system-decorations",
    "--legacy-paste",
    "--clipboard-direction",
    "--new-display",
    "--start-app",
    "--camera-id",
    "--camera-size",
    "--camera-facing",
    "--camera-ar",
    "--camera-fps",
    "--camera-high-speed",
    "--window-title",
    "--orientation",
    "--window-x",
    "--window-y",
    "--window-width",
    "--window-height",
    "--fullscreen",
    "--always-on-top",
    "--turn-screen-off",
    "--stay-awake",
    "--show-touches",
    "--disable-screensaver",
    "--power-off-on-close",
    "--no-mipmaps",
    "--serial",
    "--tcpip",
    "--force-adb-forward",
    "--kill-adb-on-close",
    "--no-cleanup",
];

/// Whether the flag named `name` is one this client acts on.
pub open spec fn supported_spec(name: Seq<char>) -> bool {
    name == "--video-source"@
        || name == "--video-codec"@
        || name == "--video-encoder"@
        || name == "--video-bit-rate"@
        || name == "--max-size"@
        || name == "--max-fps"@
        || name == "--crop"@
        || name == "--display-id"@
        || name == "--video-buffer"@
        || name == "--no-video"@
        || name == "--print-fps"@
        || name == "--audio-codec"@
        || name == "--audio-source"@
        || name == "--audio-encoder"@
        || name == "--audio-bit-rate"@
        || name == "--audio-buffer"@
        || name == "--no-audio"@
        || name == "--v4l2-sink"@
        || name == "--v4l2-buffer"@
        || name == "--no-audio-playback"@
        || name == "--no-video-playback"@
        || name == "--no-playback"@
        || name == "--audio-output-buffer"@
        || name == "--mouse-bind"@
        || name == "--audio-dup"@
        || name == "--require-audio"@
        || name == "--record"@
        || name == "--record-format"@
        || name == "--time-limit"@
        || name == "--keyboard"@
        || name == "--mouse"@
        || name == "--shortcut-mod"@
        || name == "--no-control"@
        || name == "--no-clipboard-autosync"@
        || name == "--forward-all-clicks"@
        || name == "--prefer-text"@
        || name == "--raw-key-events"@
        || name == "--verbosity"@
        || name == "--tunnel-host"@
        || name == "--tunnel-port"@
        || name == "--port"@
        || name == "--select-usb"@
        || name == "--select-tcpip"@
        || name == "--window-borderless"@
        || name == "--no-power-on"@
        || name == "--no-vd-destroy-content"@
        || name == "--no-vd-system-decorations"@
        || name == "--legacy-paste"@
        || name == "--clipboard-direction"@
        || name == "--new-display"@
        || name == "--start-app"@
        || name == "--camera-id"@
        || name == "--camera-size"@
        || name == "--camera-facing"@
        || name == "--camera-ar"@
        || name == "--camera-fps"@
        || name == "--camera-high-speed"@
        || name == "--window-title"@
        || name == "--orientation"@
        || name == "--window-x"@
        || name == "--window-y"@
        || name == "--window-width"@
        || name == "--window-height"@
        || name == "--fullscreen"@
        || name == "--always-on-top"@
        || name == "--turn-screen-off"@
        || name == "--stay-awake"@
        || name == "--show-touches"@
        || name == "--disable-screensaver"@
        || name == "--power-off-on-close"@
        || name == "--no-mipmaps"@
        || name == "--serial"@
        || name == "--tcpip"@
        || name == "--force-adb-forward"@
        || name == "--kill-adb-on-close"@
        || name == "--no-cleanup"@
}

/// Whether the flag named `name` is one this client acts on.
pub fn is_supported(name: &str) -> (b: bool)
    ensures
        b == supported_spec(name@),
{
    text_eq(name, "--video-source")
        || text_eq(name, "--video-codec")
        || text_eq(name, "--video-encoder")
        || text_eq(name, "--video-bit-rate")
        || text_eq(name, "--max-size")
        || text_eq(name, "--max-fps")
        || text_eq(name, "--crop")
        || text_eq(name, "--display-id")
        || text_eq(name, "--video-buffer")
        || text_eq(name, "--no-video")
        || text_eq(name, "--print-fps")
        || text_eq(name, "--audio-codec")
        || text_eq(name, "--audio-source")
        || text_eq(name, "--audio-encoder")
        || text_eq(name, "--audio-bit-rate")
        || text_eq(name, "--audio-buffer")
        || text_eq(name, "--no-audio")
        || text_eq(name, "--v4l2-sink")
        || text_eq(name, "--v4l2-buffer")
        || text_eq(name, "--no-audio-playback")
        || text_eq(name, "--no-video-playback")
        || text_eq(name, "--no-playback")
        || text_eq(name, "--audio-output-buffer")
        || text_eq(name, "--mouse-bind")
        || text_eq(name, "--audio-dup")
        || text_eq(name, "--require-audio")
        || text_eq(name, "--record")
        || text_eq(name, "--record-format")
        || text_eq(name, "--time-limit")
        || text_eq(name, "--keyboard")
        || text_eq(name, "--mouse")
        || text_eq(name, "--shortcut-mod")
        || text_eq(name, "--no-control")
        || text_eq(name, "--no-clipboard-autosync")
        || text_eq(name, "--forward-all-clicks")
        || text_eq(name, "--prefer-text")
        || text_eq(name, "--raw-key-events")
        || text_eq(name, "--verbosity")
        || text_eq(name, "--tunnel-host")
        || text_eq(name, "--tunnel-port")
        || text_eq(name, "--port")
        || text_eq(name, "--select-usb")
        || text_eq(name, "--select-tcpip")
        || text_eq(name, "--window-borderless")
        || text_eq(name, "--no-power-on")
        || text_eq(name, "--no-vd-destroy-content")
        || text_eq(name, "--no-vd-system-decorations")
        || text_eq(name, "--legacy-paste")
        || text_eq(name, "--clipboard-direction")
        || text_eq(name, "--new-display")
        || text_eq(name, "--start-app")
        || text_eq(name, "--camera-id")
        || text_eq(name, "--camera-size")
        || text_eq(name, "--camera-facing")
        || text_eq(name, "--camera-ar")
        || text_eq(name, "--camera-fps")
        || text_eq(name, "--camera-high-speed")
        || text_eq(name, "--window-title")
        || text_eq(name, "--orientation")
        || text_eq(name, "--window-x")
        || text_eq(name, "--window-y")
        || text_eq(name, "--window-width")
        || text_eq(name, "--window-height")
        || text_eq(name, "--fullscreen")
        || text_eq(name, "--always-on-top")
        || text_eq(name, "--turn-screen-off")
        || text_eq(name, "--stay-awake")
        || text_eq(name, "--show-touches")
        || text_eq(name, "--disable-screensaver")
        || text_eq(name, "--power-off-on-close")
        || text_eq(name, "--no-mipmaps")
        || text_eq(name, "--serial")
        || text_eq(name, "--tcpip")
        || text_eq(name, "--force-adb-forward")
        || text_eq(name, "--kill-adb-on-close")
        || text_eq(name, "--no-cleanup")
}

/// Append `value` as a flag if it says something other than its default.
fn push_opt(out: &mut Vec<String>, name: &str, value: &str, default: &str)
    ensures
        views(final(out)@) == views(old(out)@) + opt_spec(name@, value@, default@),
{
    reveal(opt_spec);
    let v = chars_of(value);
    if v.len() > 0 && !text_eq(value, default) {
        push_assign(out, name, value);
    } else {
        assert(views(old(out)@) + Seq::<Seq<char>>::empty() =~= views(old(out)@));
    }
}

/// Append `name=value`.
fn push_assign(out: &mut Vec<String>, name: &str, value: &str)
    ensures
        views(final(out)@) == views(old(out)@) + seq![assign(name@, value@)],
{
    let mut s = owned(name);
    push_char(&mut s, '=');
    append(&mut s, value);
    let ghost before = out@;
    out.push(s);
    assert(views(out@) =~= views(before) + seq![assign(name@, value@)]);
}

/// Append a switch if it is on.
fn push_switch(out: &mut Vec<String>, on: bool, name: &str)
    ensures
        views(final(out)@) == views(old(out)@) + switch_spec(on, name@),
{
    reveal(switch_spec);
    let ghost before = out@;
    if on {
        out.push(owned(name));
        assert(views(out@) =~= views(before) + seq![name@]);
    } else {
        assert(views(before) + Seq::<Seq<char>>::empty() =~= views(before));
    }
}

/// Whether a string is empty.
fn is_blank(s: &str) -> (b: bool)
    ensures
        b == (s@.len() == 0),
{
    chars_of(s).len() == 0
}

/// The dashed clipboard direction.
fn clipboard_direction(d: &str) -> (r: &str)
    ensures
        r@ == clipboard_direction_spec(d@),
{
    if text_eq(d, "toDevice") {
        "to-device"
    } else if text_eq(d, "toPc") {
        "to-pc"
    } else {
        d
    }
}

/// The machine's clock reading.
#[verifier::external_type_specification]
#[verifier::external_body]
pub struct ExSystemTime(std::time::SystemTime);

/// Why a reading could not be measured from an earlier one.
#[verifier::external_type_specification]
#[verifier::external_body]
pub struct ExSystemTimeError(std::time::SystemTimeError);

/// Calls `SystemTime::now`; nothing is claimed of the reading, which is the
/// machine's.
#[verifier::external_body]
fn system_now() -> std::time::SystemTime {
    std::time::SystemTime::now()
}

/// Calls `SystemTime::duration_since` with the Unix epoch: an error where
/// the reading is before it. Nothing is claimed of the duration.
#[verifier::external_body]
fn since_epoch(t: std::time::SystemTime) -> Result<std::time::Duration, std::time::SystemTimeError> {
    t.duration_since(std::time::UNIX_EPOCH)
}

/// Calls `Duration::as_secs`, the whole seconds of a duration. Nothing is
/// claimed of the value, since nothing here states the duration.
#[verifier::external_body]
fn whole_seconds(d: &std::time::Duration) -> u64 {
    d.as_secs()
}

/// The current time, in seconds since the Unix epoch, or zero if the clock
/// is set before it.
fn unix_seconds() -> u64 {
    match since_epoch(system_now()) {
        Ok(d) => whole_seconds(&d),
        Err(_) => 0,
    }
}

impl PanelConfig {
    /// Append the video options.
    #[verifier::rlimit(40)]
    fn push_video_flags(&self, out: &mut Vec<String>)
        ensures
            views(final(out)@) == views(old(out)@) + video_flags(*self),
    {
        let ghost start = views(out@);
        push_opt(out, "--video-source", self.video_source.as_str(), "display");
        push_opt(out, "--video-codec", self.video_codec.as_str(), "h264");
        push_opt(out, "--video-encoder", self.video_encoder.as_str(), "");
        push_opt(out, "--video-bit-rate", self.video_bit_rate.as_str(), "8M");
        push_opt(out, "--max-size", self.max_size.as_str(), "");
        push_opt(out, "--max-fps", self.max_fps.as_str(), "");
        push_opt(out, "--crop", self.crop.as_str(), "");
        push_opt(out, "--display-id", self.display_id.as_str(), "");
        push_opt(out, "--video-buffer", self.video_buffer.as_str(), "");
        push_opt(out, "--display-orientation", self.display_orientation.as_str(), "0");
        assert(views(out@) =~= start + video_flags(*self));
    }

    /// Append the audio options.
    #[verifier::rlimit(40)]
    fn push_audio_flags(&self, out: &mut Vec<String>)
        ensures
            views(final(out)@) == views(old(out)@) + audio_flags(*self),
    {
        let ghost start = views(out@);
        push_opt(out, "--audio-codec", self.audio_codec.as_str(), "opus");
        push_opt(out, "--audio-source", self.audio_source.as_str(), "output");
        push_opt(out, "--audio-encoder", self.audio_encoder.as_str(), "");
        push_opt(out, "--audio-bit-rate", self.audio_bit_rate.as_str(), "128K");
        push_opt(out, "--audio-buffer", self.audio_buffer.as_str(), "");
        push_opt(out, "--audio-output-buffer", self.audio_output_buffer.as_str(), "");
        assert(views(out@) =~= start + audio_flags(*self));
    }

    /// Append the record options.
    #[verifier::rlimit(40)]
    fn push_record_flags(&self, out: &mut Vec<String>)
        ensures
            views(final(out)@) == views(old(out)@) + record_flags(*self),
    {
        let ghost start = views(out@);
        push_opt(out, "--time-limit", self.time_limit.as_str(), "");
        push_opt(out, "--record-orientation", self.record_orientation.as_str(), "0");
        assert(views(out@) =~= start + record_flags(*self));
    }

    /// Append the input options.
    #[verifier::rlimit(40)]
    fn push_input_flags(&self, out: &mut Vec<String>)
        ensures
            views(final(out)@) == views(old(out)@) + input_flags(*self),
    {
        let ghost start = views(out@);
        push_opt(out, "--keyboard", self.keyboard.as_str(), "sdk");
        push_opt(out, "--mouse", self.mouse.as_str(), "sdk");
        push_opt(out, "--gamepad", self.gamepad.as_str(), "disabled");
        push_opt(out, "--shortcut-mod", self.shortcut_mod.as_str(), "lalt");
        assert(views(out@) =~= start + input_flags(*self));
    }

    /// Append the virtual display options.
    #[verifier::rlimit(40)]
    fn push_virtual_display_flags(&self, out: &mut Vec<String>)
        ensures
            views(final(out)@) == views(old(out)@) + virtual_display_flags(*self),
    {
        let ghost start = views(out@);
        push_opt(out, "--start-app", self.start_app.as_str(), "");
        assert(views(out@) =~= start + virtual_display_flags(*self));
    }

    /// Append the camera options.
    #[verifier::rlimit(40)]
    fn push_camera_flags(&self, out: &mut Vec<String>)
        ensures
            views(final(out)@) == views(old(out)@) + camera_flags(*self),
    {
        let ghost start = views(out@);
        if text_eq(self.video_source.as_str(), "camera") {
            push_opt(out, "--camera-facing", self.camera_facing.as_str(), "back");
            push_opt(out, "--camera-id", self.camera_id.as_str(), "");
            push_opt(out, "--camera-size", self.camera_size.as_str(), "");
            push_opt(out, "--camera-ar", self.camera_ar.as_str(), "");
            push_opt(out, "--camera-fps", self.camera_fps.as_str(), "");
        } else {
            assert(start + Seq::<Seq<char>>::empty() =~= start);
        }
        assert(views(out@) =~= start + camera_flags(*self));
    }

    /// Append the window options.
    #[verifier::rlimit(40)]
    fn push_window_flags(&self, out: &mut Vec<String>)
        ensures
            views(final(out)@) == views(old(out)@) + window_flags(*self),
    {
        let ghost start = views(out@);
        push_opt(out, "--window-title", self.window_title.as_str(), "");
        push_opt(out, "--orientation", self.orientation.as_str(), "0");
        push_opt(out, "--window-x", self.window_x.as_str(), "");
        push_opt(out, "--window-y", self.window_y.as_str(), "");
        push_opt(out, "--window-width", self.window_width.as_str(), "");
        push_opt(out, "--window-height", self.window_height.as_str(), "");
        assert(views(out@) =~= start + window_flags(*self));
    }

    /// Append the network options.
    #[verifier::rlimit(40)]
    fn push_network_flags(&self, out: &mut Vec<String>)
        ensures
            views(final(out)@) == views(old(out)@) + network_flags(*self),
    {
        let ghost start = views(out@);
        push_opt(out, "--serial", self.serial.as_str(), "");
        push_opt(out, "--port", self.port.as_str(), "");
        push_opt(out, "--tunnel-host", self.tunnel_host.as_str(), "");
        push_opt(out, "--tunnel-port", self.tunnel_port.as_str(), "");
        push_opt(out, "--verbosity", self.verbosity.as_str(), "info");
        push_opt(out, "--clipboard-direction", clipboard_direction(self.clipboard_direction.as_str()), "both");
        assert(views(out@) =~= start + network_flags(*self));
    }

    #[verifier::rlimit(40)]
    fn push_switch_flags_0(&self, out: &mut Vec<String>)
        ensures
            views(final(out)@) == views(old(out)@) + switch_flags_0(*self),
    {
        let ghost start = views(out@);
        push_switch(out, self.no_video, "--no-video");
        push_switch(out, self.print_fps, "--print-fps");
        push_switch(out, self.no_video_playback, "--no-video-playback");
        push_switch(out, self.no_audio, "--no-audio");
        push_switch(out, self.audio_dup, "--audio-dup");
        push_switch(out, self.require_audio, "--require-audio");
        push_switch(out, self.no_audio_playback, "--no-audio-playback");
        push_switch(out, self.no_playback, "--no-playback");
        push_switch(out, self.otg, "--otg");
        assert(views(out@) =~= start + switch_flags_0(*self));
    }

    #[verifier::rlimit(40)]
    fn push_switch_flags_1(&self, out: &mut Vec<String>)
        ensures
            views(final(out)@) == views(old(out)@) + switch_flags_1(*self),
    {
        let ghost start = views(out@);
        push_switch(out, self.no_control, "--no-control");
        push_switch(out, self.no_clipboard_autosync, "--no-clipboard-autosync");
        push_switch(out, self.forward_all_clicks, "--forward-all-clicks");
        push_switch(out, self.legacy_paste, "--legacy-paste");
        push_switch(out, self.prefer_text, "--prefer-text");
        push_switch(out, self.raw_key_events, "--raw-key-events");
        push_switch(out, self.no_vd_destroy_content, "--no-vd-destroy-content");
        push_switch(out, self.no_vd_system_decorations, "--no-vd-system-decorations");
        push_switch(out, self.camera_high_speed && text_eq(self.video_source.as_str(), "camera"), "--camera-high-speed");
        assert(views(out@) =~= start + switch_flags_1(*self));
    }

    #[verifier::rlimit(40)]
    fn push_switch_flags_2(&self, out: &mut Vec<String>)
        ensures
            views(final(out)@) == views(old(out)@) + switch_flags_2(*self),
    {
        let ghost start = views(out@);
        push_switch(out, self.fullscreen, "--fullscreen");
        push_switch(out, self.always_on_top, "--always-on-top");
        push_switch(out, self.window_borderless, "--window-borderless");
        push_switch(out, self.turn_screen_off, "--turn-screen-off");
        push_switch(out, self.stay_awake, "--stay-awake");
        push_switch(out, self.show_touches, "--show-touches");
        push_switch(out, self.disable_screensaver, "--disable-screensaver");
        push_switch(out, self.power_off_on_close, "--power-off-on-close");
        assert(views(out@) =~= start + switch_flags_2(*self));
    }

    #[verifier::rlimit(40)]
    fn push_switch_flags_3(&self, out: &mut Vec<String>)
        ensures
            views(final(out)@) == views(old(out)@) + switch_flags_3(*self),
    {
        let ghost start = views(out@);
        push_switch(out, self.no_power_on, "--no-power-on");
        push_switch(out, self.no_mipmaps, "--no-mipmaps");
        push_switch(out, self.force_adb_forward, "--force-adb-forward");
        push_switch(out, self.select_usb, "--select-usb");
        push_switch(out, self.select_tcpip, "--select-tcpip");
        push_switch(out, self.kill_adb_on_close, "--kill-adb-on-close");
        push_switch(out, self.no_cleanup, "--no-cleanup");
        assert(views(out@) =~= start + switch_flags_3(*self));
    }

    /// Append the switches.
    #[verifier::rlimit(40)]
    fn push_switch_flags(&self, out: &mut Vec<String>)
        ensures
            views(final(out)@) == views(old(out)@) + switch_flags(*self),
    {
        let ghost start = views(out@);
        self.push_switch_flags_0(out);
        self.push_switch_flags_1(out);
        self.push_switch_flags_2(out);
        self.push_switch_flags_3(out);
        assert(views(out@) =~= start + switch_flags(*self));
    }

    #[verifier::rlimit(40)]
    fn push_v4l2_flags(&self, out: &mut Vec<String>)
        ensures
            views(final(out)@) == views(old(out)@) + v4l2_flags(*self),
    {
        let ghost start = views(out@);
        if !is_blank(self.v4l2_sink.as_str()) {
            push_assign(out, "--v4l2-sink", self.v4l2_sink.as_str());
            if !is_blank(self.v4l2_buffer.as_str()) {
                push_assign(out, "--v4l2-buffer", self.v4l2_buffer.as_str());
            }
        }
        assert(views(out@) =~= start + v4l2_flags(*self));
    }

    #[verifier::rlimit(40)]
    fn push_mouse_bind_flags(&self, out: &mut Vec<String>)
        ensures
            views(final(out)@) == views(old(out)@) + mouse_bind_flags(*self),
    {
        let ghost start = views(out@);
        if self.mouse_bind_enabled && !is_blank(self.mouse_bind.as_str()) {
            push_assign(out, "--mouse-bind", self.mouse_bind.as_str());
        }
        assert(views(out@) =~= start + mouse_bind_flags(*self));
    }

    #[verifier::rlimit(40)]
    fn push_new_display_flags(&self, out: &mut Vec<String>)
        ensures
            views(final(out)@) == views(old(out)@) + new_display_flags(*self),
    {
        let ghost before = out@;
        if self.new_display_enabled {
            if is_blank(self.new_display.as_str()) {
                out.push(owned("--new-display"));
                assert(views(out@) =~= views(before) + seq!["--new-display"@]);
            } else {
                push_assign(out, "--new-display", self.new_display.as_str());
            }
        }
        assert(views(out@) =~= views(before) + new_display_flags(*self));
    }

    #[verifier::rlimit(40)]
    fn push_tcpip_flags(&self, out: &mut Vec<String>)
        ensures
            views(final(out)@) == views(old(out)@) + tcpip_flags(*self),
    {
        let ghost start = views(out@);
        if self.tcpip_enabled && !is_blank(self.tcpip_addr.as_str()) {
            push_assign(out, "--tcpip", self.tcpip_addr.as_str());
        }
        assert(views(out@) =~= start + tcpip_flags(*self));
    }

    #[verifier::rlimit(40)]
    fn push_record_output_flags(&self, out: &mut Vec<String>, stamp: u64)
        ensures
            views(final(out)@) == views(old(out)@) + record_output_flags(*self, stamp),
    {
        let ghost start = views(out@);
        if self.record_enabled && !is_blank(self.record_path.as_str()) {
            let path = self.record_path_at(stamp);
            push_assign(out, "--record", path.as_str());
            if !text_eq(self.record_format.as_str(), "mp4") {
                push_assign(out, "--record-format", self.record_format.as_str());
            }
        }
        assert(views(out@) =~= start + record_output_flags(*self, stamp));
    }

    /// Append the switches that carry a value.
    #[verifier::rlimit(40)]
    fn push_valued_switch_flags(&self, out: &mut Vec<String>, stamp: u64)
        ensures
            views(final(out)@) == views(old(out)@) + valued_switch_flags(*self, stamp),
    {
        let ghost start = views(out@);
        self.push_v4l2_flags(out);
        self.push_mouse_bind_flags(out);
        self.push_new_display_flags(out);
        self.push_tcpip_flags(out);
        self.push_record_output_flags(out, stamp);
        assert(views(out@) =~= start + valued_switch_flags(*self, stamp));
    }

    /// The command's flags, with `stamp` as the time a recording is named
    /// for.
    pub fn to_flags_at(&self, stamp: u64) -> (r: Vec<String>)
        ensures
            views(r@) == flags_spec(*self, stamp),
    {
        let mut out: Vec<String> = Vec::new();
        assert(views(out@) =~= Seq::<Seq<char>>::empty());
        self.push_video_flags(&mut out);
        self.push_audio_flags(&mut out);
        self.push_record_flags(&mut out);
        self.push_input_flags(&mut out);
        self.push_virtual_display_flags(&mut out);
        self.push_camera_flags(&mut out);
        self.push_window_flags(&mut out);
        self.push_network_flags(&mut out);
        self.push_switch_flags(&mut out);
        self.push_valued_switch_flags(&mut out, stamp);
        assert(views(out@) =~= flags_spec(*self, stamp));
        out
    }

    /// The command shown in the bar at the bottom, as canonical scrcpy flags.
    /// A recording is named for the current time.
    pub fn to_flags(&self) -> (r: Vec<String>)
        ensures
            exists|stamp: u64| views(r@) == flags_spec(*self, stamp),
    {
        let stamp = unix_seconds();
        self.to_flags_at(stamp)
    }

    /// The recording path, named for the time `stamp`.
    pub fn record_path_at(&self, stamp: u64) -> (r: String)
        ensures
            r@ == record_path_spec(*self, stamp),
    {
        if !self.record_timestamp || is_blank(self.record_path.as_str()) {
            return owned(self.record_path.as_str());
        }
        let v = chars_of(self.record_path.as_str());
        let digits = crate::text::decimal_string(stamp);
        match find_last(&v, '.') {
            Some(i) => {
                proof { crate::paths::lemma_last_index_bounds(v@, '.'); }
                let mut s = string_of_range(&v, 0, i);
                push_char(&mut s, '-');
                append(&mut s, digits.as_str());
                push_char(&mut s, '.');
                let rest = string_of_range(&v, i + 1, v.len());
                append(&mut s, rest.as_str());
                assert(s@ =~= record_path_spec(*self, stamp));
                s
            },
            None => {
                let mut s = owned(self.record_path.as_str());
                push_char(&mut s, '-');
                append(&mut s, digits.as_str());
                s
            },
        }
    }

    /// The recording path with a timestamp folded in, when the form asks for
    /// one; the time is the current one.
    pub fn effective_record_path(&self) -> (r: String)
        ensures
            exists|stamp: u64| r@ == record_path_spec(*self, stamp),
    {
        let stamp = unix_seconds();
        self.record_path_at(stamp)
    }
}

} // verus!
