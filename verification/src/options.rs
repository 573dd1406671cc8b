//! The command line: every option this client takes, and what a parsed
//! command line means — whether there is video, whether anything is played
//! back, which way round the display goes, what port range to try.
//!
//! Parsing the words of a command line into an `Options` is the argument
//! parser's work; what is here starts from the parsed values.

use vstd::prelude::*;
use crate::text::{chars_of, has_prefix, owned, parse_range, parse_unsigned, trim, trim_bounds};

verus! {

/// A command line, parsed: every option this client takes, under its own name.
pub struct Options {
    /// Open the control panel instead of mirroring straight away
    pub panel: bool,
    /// With --panel, start a session as soon as the panel opens
    pub start: bool,
    /// Device serial number (from `adb devices`)
    pub serial: Option<String>,
    /// Connect wirelessly via TCP/IP (e.g. 192.168.1.100 or 192.168.1.100:5555)
    pub tcpip: Option<String>,
    /// Limit video resolution (e.g. 1024)
    pub max_size: u16,
    /// Maximum framerate (e.g. 60)
    pub max_fps: Option<String>,
    /// Video bit rate in bps, with an optional K or M suffix (default 8M)
    pub video_bit_rate: u32,
    /// Video codec: h264, h265, av1
    pub video_codec: String,
    /// Disable audio forwarding
    pub no_audio: bool,
    /// Disable video (audio only)
    pub no_video: bool,
    /// Video buffer delay in milliseconds (0 = disabled)
    pub video_buffer: u32,
    /// Disable device control
    pub no_control: bool,
    /// Window title
    pub window_title: Option<String>,
    /// Start in fullscreen
    pub fullscreen: bool,
    /// Always on top
    pub always_on_top: bool,
    /// Borderless window
    pub borderless: bool,
    /// How the picture fits the window: letterbox, stretched or unscaled
    pub render_fit: Option<String>,
    /// Colour behind and around the picture, as #RGB or #RRGGBB
    pub background_color: Option<String>,
    /// Do not name the terminal after the session
    pub no_terminal_title: bool,
    /// Wait for a keypress before exiting: true, false or if-error
    pub pause_on_exit: String,
    /// Record to file
    pub record: Option<String>,
    /// Crop the device screen (e.g. 1080:1920:0:0)
    pub crop: Option<String>,
    /// Port range for ADB tunnel (e.g. 27183:27199)
    pub port_range: String,
    /// Turn screen off while mirroring
    pub turn_screen_off: bool,
    /// Use forward connection instead of reverse
    pub force_adb_forward: bool,
    /// Print FPS to console
    pub print_fps: bool,
    /// List available video/audio encoders and exit
    pub list_encoders: bool,
    /// List available displays and exit
    pub list_displays: bool,
    /// List available cameras and exit
    pub list_cameras: bool,
    /// List the sizes the device's cameras support, then exit
    pub list_camera_sizes: bool,
    /// List installed apps and exit
    pub list_apps: bool,
    /// Show touches on the device screen
    pub show_touches: bool,
    /// Keep the device awake while plugged in
    pub stay_awake: bool,
    /// Keep the screen on by simulating user activity
    pub keep_active: bool,
    /// Turn the device power on at start
    pub power_on: bool,
    /// Do not turn the device power on at start
    pub no_power_on: bool,
    /// Which way the clipboard may travel: both, to-device or to-pc
    pub clipboard_direction: String,
    /// Buffer the V4L2 output by this many milliseconds
    pub v4l2_buffer: u32,
    /// IP of the adb tunnel reaching the server (implies --force-adb-forward)
    pub tunnel_host: Option<String>,
    /// Port of the adb tunnel reaching the server (implies --force-adb-forward)
    pub tunnel_port: Option<u16>,
    /// Log level, for this client and for the server both. The five the
    pub verbosity: String,
    /// Keep the virtual display's content when the session ends
    pub no_vd_destroy_content: bool,
    /// Hide the system bars on the virtual display
    pub no_vd_system_decorations: bool,
    /// Only consider a USB device when selecting one
    pub select_usb: bool,
    /// Only consider a TCP/IP device when selecting one
    pub select_tcpip: bool,
    /// Forward every mouse button to the device (same as --mouse-bind=++++)
    pub forward_all_clicks: bool,
    /// Prefer injecting text over keycodes
    pub prefer_text: bool,
    /// Send every key as a raw keycode, never as text
    pub raw_key_events: bool,
    /// Power off the device screen on close
    pub power_off_on_close: bool,
    /// Mirror a specific display (default 0 = main display)
    pub display_id: Option<u32>,
    /// Time limit in seconds (0 = no limit)
    pub time_limit: Option<u32>,
    /// Audio bit rate in bps, with an optional K or M suffix (default 128K)
    pub audio_bit_rate: u32,
    /// Video encoder name (e.g. OMX.qcom.video.encoder.avc)
    pub video_encoder: Option<String>,
    /// Audio encoder name
    pub audio_encoder: Option<String>,
    /// Audio source. The eleven the server's `AudioSource` knows; anything
    pub audio_source: Option<String>,
    /// Video source: display (default) or camera
    pub video_source: String,
    /// Camera ID (from --list-cameras)
    pub camera_id: Option<String>,
    /// Camera capture size (e.g. 1920x1080)
    pub camera_size: Option<String>,
    /// Camera facing: front, back, external
    pub camera_facing: Option<String>,
    /// Camera capture FPS
    pub camera_fps: Option<u32>,
    /// Camera aspect ratio (e.g. 16:9 or sensor)
    pub camera_ar: Option<String>,
    /// Enable camera high-speed mode
    pub camera_high_speed: bool,
    /// Turn the camera torch on when the camera starts
    pub camera_torch: bool,
    /// Initial camera zoom
    pub camera_zoom: Option<String>,
    /// Hardware decoding: off or auto
    pub hwaccel: String,
    /// Input only, over USB: no adb, no server, no picture
    pub otg: bool,
    /// Keyboard input mode: sdk, uhid, aoa, disabled
    pub keyboard: String,
    /// Mouse input mode: sdk, uhid, aoa, disabled
    pub mouse: String,
    /// Gamepad input mode: disabled, uhid, aoa
    pub gamepad: String,
    /// Key inject mode: mixed (default), text, raw
    pub key_inject_mode: String,
    /// SDL render driver: opengl, direct3d, software (use opengl for mipmaps on Windows)
    pub render_driver: Option<String>,
    /// Disable mipmaps (trilinear filtering)
    pub no_mipmaps: bool,
    /// Window X position
    pub window_x: Option<i16>,
    /// Window Y position
    pub window_y: Option<i16>,
    /// Window width
    pub window_width: Option<u16>,
    /// Window height
    pub window_height: Option<u16>,
    /// Shortcut modifier: lctrl, rctrl, lalt, ralt, lsuper, rsuper. '+' joins keys that must
    pub shortcut_mod: String,
    /// Audio codec: opus, aac, flac, raw
    pub audio_codec: String,
    /// Recording format: auto, mp4, mkv, m4a, mka
    pub record_format: Option<String>,
    /// Target directory for file push (default /sdcard/Download/)
    pub push_target: String,
    /// Forward key repeat events to the device
    pub forward_key_repeat: bool,
    /// Do not forward repeated key events when a key is held down
    pub no_key_repeat: bool,
    /// Do not forward mouse motion that happens with no button down
    pub no_mouse_hover: bool,
    /// Enable clipboard auto-sync
    pub clipboard_autosync: bool,
    /// Disable clipboard auto-sync
    pub no_clipboard_autosync: bool,
    /// Disable screensaver while mirroring
    pub disable_screensaver: bool,
    /// Audio buffer size in milliseconds (default 50ms)
    pub audio_buffer: u32,
    /// How the mirror window shows the picture: 0, 90, 180, 270, or the same
    pub display_orientation: Option<String>,
    /// How the recording is rotated: 0, 90, 180, 270
    pub record_orientation: Option<String>,
    /// Initial display orientation: 0, 90, 180, 270
    pub orientation: u16,
    /// Skip server cleanup on exit
    pub no_cleanup: bool,
    /// Kill ADB server on close
    pub kill_adb_on_close: bool,
    /// Start an app by package name
    pub start_app: Option<String>,
    /// Capture orientation sent to server (e.g. 0, 90, 180, 270, @, @0, @90, @180, @270)
    pub capture_orientation: Option<String>,
    /// Path to scrcpy-server
    pub server_path: Option<String>,
    /// V4L2 loopback device for webcam emulation (Linux only, e.g. /dev/video2)
    pub v4l2_sink: Option<String>,
    /// Create a virtual display (e.g. 1920x1080/420, or just /420 for default size)
    pub new_display: Option<String>,
    /// Resize the virtual display to follow the window
    pub flex_display: bool,
    /// Capture video for recording but don't display it
    pub no_video_playback: bool,
    /// Run with no window at all, which implies --no-video-playback
    pub no_window: bool,
    /// Disable audio playback on the computer (still decoded for recording)
    pub no_audio_playback: bool,
    /// Disable both video and audio playback
    pub no_playback: bool,
    /// Fail if audio capture is not available
    pub require_audio: bool,
    /// Configure mouse button bindings (e.g. +right_click=back,+middle_click=home)
    pub mouse_bind: Option<String>,
    /// Use legacy paste method (inject text directly)
    pub legacy_paste: bool,
    /// Duplicate audio stream to both device speaker and client
    pub audio_dup: bool,
    /// Rotation angle in degrees (float, e.g. 90, 180, 270)
    pub angle: Option<String>,
    /// Reduce video resolution on encoder failure
    pub downsize_on_error: bool,
    /// Do not reduce the video resolution when the encoder fails
    pub no_downsize_on_error: bool,
    /// Minimum video size alignment: 1, 2, 4, 8 or 16
    pub min_size_alignment: Option<u32>,
    /// Ignore what the video encoder says it can do
    pub ignore_video_encoder_constraints: bool,
    /// SDL audio output buffer size in ms (default 5)
    pub audio_output_buffer: u32,
    /// Extra video codec options (key[:type]=value, comma-separated)
    pub video_codec_options: Option<String>,
    /// Extra audio codec options (key[:type]=value, comma-separated)
    pub audio_codec_options: Option<String>,
    /// Display IME policy: local, fallback, hide
    pub display_ime_policy: Option<String>,
    /// Delay in seconds before turning screen off (-1 = no timeout)
    pub screen_off_timeout: Option<i32>,
}

impl Default for Options {
    /// What a command line with no options means.
    fn default() -> (o: Self)
        ensures
            o.panel == false,
            o.start == false,
            o.serial is None,
            o.tcpip is None,
            o.max_size == 0,
            o.max_fps is None,
            o.video_bit_rate == 8000000,
            o.video_codec@ == "h264"@,
            o.no_audio == false,
            o.no_video == false,
            o.video_buffer == 0,
            o.no_control == false,
            o.window_title is None,
            o.fullscreen == false,
            o.always_on_top == false,
            o.borderless == false,
            o.render_fit is None,
            o.background_color is None,
            o.no_terminal_title == false,
            o.pause_on_exit@ == "false"@,
            o.record is None,
            o.crop is None,
            o.port_range@ == "27183:27199"@,
            o.turn_screen_off == false,
            o.force_adb_forward == false,
            o.print_fps == false,
            o.list_encoders == false,
            o.list_displays == false,
            o.list_cameras == false,
            o.list_camera_sizes == false,
            o.list_apps == false,
            o.show_touches == false,
            o.stay_awake == false,
            o.keep_active == false,
            o.power_on == true,
            o.no_power_on == false,
            o.clipboard_direction@ == "both"@,
            o.v4l2_buffer == 0,
            o.tunnel_host is None,
            o.tunnel_port is None,
            o.verbosity@ == "info"@,
            o.no_vd_destroy_content == false,
            o.no_vd_system_decorations == false,
            o.select_usb == false,
            o.select_tcpip == false,
            o.forward_all_clicks == false,
            o.prefer_text == false,
            o.raw_key_events == false,
            o.power_off_on_close == false,
            o.display_id is None,
            o.time_limit is None,
            o.audio_bit_rate == 128000,
            o.video_encoder is None,
            o.audio_encoder is None,
            o.audio_source is None,
            o.video_source@ == "display"@,
            o.camera_id is None,
            o.camera_size is None,
            o.camera_facing is None,
            o.camera_fps is None,
            o.camera_ar is None,
            o.camera_high_speed == false,
            o.camera_torch == false,
            o.camera_zoom is None,
            o.hwaccel@ == "off"@,
            o.otg == false,
            o.keyboard@ == "sdk"@,
            o.mouse@ == "sdk"@,
            o.gamepad@ == "disabled"@,
            o.key_inject_mode@ == "mixed"@,
            o.render_driver is None,
            o.no_mipmaps == false,
            o.window_x is None,
            o.window_y is None,
            o.window_width is None,
            o.window_height is None,
            o.shortcut_mod@ == "lalt"@,
            o.audio_codec@ == "opus"@,
            o.record_format is None,
            o.push_target@ == "/sdcard/Download/"@,
            o.forward_key_repeat == true,
            o.no_key_repeat == false,
            o.no_mouse_hover == false,
            o.clipboard_autosync == true,
            o.no_clipboard_autosync == false,
            o.disable_screensaver == false,
            o.audio_buffer == 50,
            o.display_orientation is None,
            o.record_orientation is None,
            o.orientation == 0,
            o.no_cleanup == false,
            o.kill_adb_on_close == false,
            o.start_app is None,
            o.capture_orientation is None,
            o.server_path is None,
            o.v4l2_sink is None,
            o.new_display is None,
            o.flex_display == false,
            o.no_video_playback == false,
            o.no_window == false,
            o.no_audio_playback == false,
            o.no_playback == false,
            o.require_audio == false,
            o.mouse_bind is None,
            o.legacy_paste == false,
            o.audio_dup == false,
            o.angle is None,
            o.downsize_on_error == true,
            o.no_downsize_on_error == false,
            o.min_size_alignment is None,
            o.ignore_video_encoder_constraints == false,
            o.audio_output_buffer == 5,
            o.video_codec_options is None,
            o.audio_codec_options is None,
            o.display_ime_policy is None,
            o.screen_off_timeout is None,
    {
        Options {
            panel: false,
            start: false,
            serial: None,
            tcpip: None,
            max_size: 0,
            max_fps: None,
            video_bit_rate: 8000000,
            video_codec: owned("h264"),
            no_audio: false,
            no_video: false,
            video_buffer: 0,
            no_control: false,
            window_title: None,
            fullscreen: false,
            always_on_top: false,
            borderless: false,
            render_fit: None,
            background_color: None,
            no_terminal_title: false,
            pause_on_exit: owned("false"),
            record: None,
            crop: None,
            port_range: owned("27183:27199"),
            turn_screen_off: false,
            force_adb_forward: false,
            print_fps: false,
            list_encoders: false,
            list_displays: false,
            list_cameras: false,
            list_camera_sizes: false,
            list_apps: false,
            show_touches: false,
            stay_awake: false,
            keep_active: false,
            power_on: true,
            no_power_on: false,
            clipboard_direction: owned("both"),
            v4l2_buffer: 0,
            tunnel_host: None,
            tunnel_port: None,
            verbosity: owned("info"),
            no_vd_destroy_content: false,
            no_vd_system_decorations: false,
            select_usb: false,
            select_tcpip: false,
            forward_all_clicks: false,
            prefer_text: false,
            raw_key_events: false,
            power_off_on_close: false,
            display_id: None,
            time_limit: None,
            audio_bit_rate: 128000,
            video_encoder: None,
            audio_encoder: None,
            audio_source: None,
            video_source: owned("display"),
            camera_id: None,
            camera_size: None,
            camera_facing: None,
            camera_fps: None,
            camera_ar: None,
            camera_high_speed: false,
            camera_torch: false,
            camera_zoom: None,
            hwaccel: owned("off"),
            otg: false,
            keyboard: owned("sdk"),
            mouse: owned("sdk"),
            gamepad: owned("disabled"),
            key_inject_mode: owned("mixed"),
            render_driver: None,
            no_mipmaps: false,
            window_x: None,
            window_y: None,
            window_width: None,
            window_height: None,
            shortcut_mod: owned("lalt"),
            audio_codec: owned("opus"),
            record_format: None,
            push_target: owned("/sdcard/Download/"),
            forward_key_repeat: true,
            no_key_repeat: false,
            no_mouse_hover: false,
            clipboard_autosync: true,
            no_clipboard_autosync: false,
            disable_screensaver: false,
            audio_buffer: 50,
            display_orientation: None,
            record_orientation: None,
            orientation: 0,
            no_cleanup: false,
            kill_adb_on_close: false,
            start_app: None,
            capture_orientation: None,
            server_path: None,
            v4l2_sink: None,
            new_display: None,
            flex_display: false,
            no_video_playback: false,
            no_window: false,
            no_audio_playback: false,
            no_playback: false,
            require_audio: false,
            mouse_bind: None,
            legacy_paste: false,
            audio_dup: false,
            angle: None,
            downsize_on_error: true,
            no_downsize_on_error: false,
            min_size_alignment: None,
            ignore_video_encoder_constraints: false,
            audio_output_buffer: 5,
            video_codec_options: None,
            audio_codec_options: None,
            display_ime_policy: None,
            screen_off_timeout: None,
        }
    }
}

/// The four characters a flipped orientation begins with.
pub open spec fn flip_word() -> Seq<char> {
    seq!['f', 'l', 'i', 'p']
}

/// `s` with every leading `flip` removed, as `str::trim_start_matches` does.
pub open spec fn strip_flips(s: Seq<char>) -> Seq<char>
    decreases s.len(),
{
    if has_prefix(s, flip_word()) {
        strip_flips(s.subrange(4, s.len() as int))
    } else {
        s
    }
}

/// What a rotation in degrees parses to, as a `u16`.
pub open spec fn parse_u16(s: Seq<char>) -> Option<u16> {
    match parse_unsigned(s, u16::MAX as nat) {
        Some(n) => Some(n as u16),
        None => None,
    }
}

/// The index of the first `c` in `s`.
pub open spec fn first_index_of(s: Seq<char>, c: char) -> Option<int>
    decreases s.len(),
{
    if s.len() == 0 {
        None
    } else if s[0] == c {
        Some(0)
    } else {
        match first_index_of(s.drop_first(), c) {
            Some(i) => Some(i + 1),
            None => None,
        }
    }
}

/// The port range scrcpy listens on when `--port` says nothing usable.
pub const DEFAULT_PORT_RANGE: (u16, u16) = (27183, 27199);

/// `--port`, which is either one port or `first:last`, with white space
/// around any part ignored.
pub open spec fn port_range_spec(s: Seq<char>) -> Option<(u16, u16)> {
    let t = trim(s);
    match first_index_of(t, ':') {
        Some(i) => match (parse_u16(trim(t.subrange(0, i))), parse_u16(trim(t.subrange(i + 1, t.len() as int)))) {
            (Some(a), Some(b)) => Some((a, b)),
            _ => None,
        },
        None => match parse_u16(t) {
            Some(p) => Some((p, p)),
            None => None,
        },
    }
}

impl Options {
    /// Whether a held key keeps reaching the device: either switch can say
    /// no.
    pub fn key_repeat_forwarded(&self) -> (b: bool)
        ensures
            b == (self.forward_key_repeat && !self.no_key_repeat),
    {
        self.forward_key_repeat && !self.no_key_repeat
    }

    /// How the picture fits the window: as asked, else unscaled on a flex
    /// display, which is already the size of the window, else letterboxed.
    pub fn render_fit_mode(&self) -> (r: &str)
        ensures
            r@ == (match self.render_fit {
                Some(fit) => fit@,
                None => if self.flex_display { "unscaled"@ } else { "letterbox"@ },
            }),
    {
        match &self.render_fit {
            Some(fit) => fit.as_str(),
            None => if self.flex_display { "unscaled" } else { "letterbox" },
        }
    }

    /// The window's rotation and whether the picture is flipped first:
    /// `--display-orientation` wins over `--orientation`.
    pub open spec fn display_rotation_spec(self) -> (u16, bool) {
        match self.display_orientation {
            Some(value) => (
                match parse_u16(strip_flips(value@)) {
                    Some(d) => d,
                    None => 0u16,
                },
                has_prefix(value@, flip_word()),
            ),
            None => (self.orientation, false),
        }
    }

    /// See `display_rotation_spec`.
    pub fn display_rotation(&self) -> (r: (u16, bool))
        ensures
            r == self.display_rotation_spec(),
    {
        match &self.display_orientation {
            Some(value) => {
                let v = chars_of(value.as_str());
                let flip = starts_with_flip(&v, 0);
                assert(v@.subrange(0, v@.len() as int) == v@);
                let start = skip_flips(&v, 0);
                let degrees = match parse_range(&v, start, v.len(), u16::MAX as u64) {
                    Some(d) => d as u16,
                    None => 0,
                };
                (degrees, flip)
            },
            None => (self.orientation, false),
        }
    }

    /// The rotation to write into a recording: `--record-orientation` if it
    /// is a number, else `--orientation`.
    pub fn record_rotation(&self) -> (r: u16)
        ensures
            r == (match self.record_orientation {
                Some(value) => match parse_u16(value@) {
                    Some(d) => d,
                    None => self.orientation,
                },
                None => self.orientation,
            }),
    {
        match &self.record_orientation {
            Some(value) => {
                let v = chars_of(value.as_str());
                assert(v@.subrange(0, v@.len() as int) == v@);
                match parse_range(&v, 0, v.len(), u16::MAX as u64) {
                    Some(d) => d as u16,
                    None => self.orientation,
                }
            },
            None => self.orientation,
        }
    }

    /// Whether the device sends video at all.
    pub fn video_enabled(&self) -> (b: bool)
        ensures
            b == !self.no_video,
    {
        !self.no_video
    }

    /// Whether the device sends audio at all.
    pub fn audio_enabled(&self) -> (b: bool)
        ensures
            b == !self.no_audio,
    {
        !self.no_audio
    }

    /// Whether input is sent to the device.
    pub fn control_enabled(&self) -> (b: bool)
        ensures
            b == !self.no_control,
    {
        !self.no_control
    }

    /// Whether video is played back: `--no-window` implies
    /// `--no-video-playback`, since there is nowhere to play a frame to.
    pub fn video_playback(&self) -> (b: bool)
        ensures
            b == (!self.no_video && !self.no_video_playback && !self.no_window),
    {
        self.video_enabled() && !self.no_video_playback && !self.no_window
    }

    /// Whether audio is played back: neither `--no-audio`,
    /// `--no-audio-playback` nor `--no-playback` turned it off.
    pub fn audio_playback(&self) -> (b: bool)
        ensures
            b == (!self.no_audio && !self.no_audio_playback && !self.no_playback),
    {
        self.audio_enabled() && !self.no_audio_playback && !self.no_playback
    }

    /// `--port`: a port on its own is a range of one; a range that runs
    /// backwards, or anything that is neither, is the default range.
    pub fn port_range_parsed(&self) -> (r: (u16, u16))
        ensures
            r == (match port_range_spec(self.port_range@) {
                Some((first, last)) => if first <= last { (first, last) } else { DEFAULT_PORT_RANGE },
                None => DEFAULT_PORT_RANGE,
            }),
    {
        let v = chars_of(self.port_range.as_str());
        assert(v@.subrange(0, v@.len() as int) == v@);
        let (a, b) = trim_bounds(&v, 0, v.len());
        let ghost t = v@.subrange(a as int, b as int);
        let parsed: Option<(u16, u16)> = match find_first(&v, a, b, ':') {
            Some(i) => {
                let (a1, b1) = trim_bounds(&v, a, i);
                let (a2, b2) = trim_bounds(&v, i + 1, b);
                assert(t.subrange(0, i - a) =~= v@.subrange(a as int, i as int));
                assert(t.subrange(i - a + 1, t.len() as int) =~= v@.subrange(i + 1, b as int));
                let first = parse_range(&v, a1, b1, u16::MAX as u64);
                let last = parse_range(&v, a2, b2, u16::MAX as u64);
                match (first, last) {
                    (Some(f), Some(l)) => Some((f as u16, l as u16)),
                    _ => None,
                }
            },
            None => match parse_range(&v, a, b, u16::MAX as u64) {
                Some(p) => Some((p as u16, p as u16)),
                None => None,
            },
        };
        match parsed {
            Some((first, last)) => if first <= last { (first, last) } else { DEFAULT_PORT_RANGE },
            None => DEFAULT_PORT_RANGE,
        }
    }
}

/// Whether `v[at..]` begins with `flip`.
fn starts_with_flip(v: &Vec<char>, at: usize) -> (b: bool)
    requires
        at <= v.len(),
    ensures
        b == has_prefix(v@.subrange(at as int, v@.len() as int), flip_word()),
{
    let ghost s = v@.subrange(at as int, v@.len() as int);
    if v.len() - at < 4 {
        return false;
    }
    let b = v[at] == 'f' && v[at + 1] == 'l' && v[at + 2] == 'i' && v[at + 3] == 'p';
    assert(b == (s.subrange(0, 4) =~= flip_word())) by {
        if !b {
            if v[at as int] != 'f' { assert(s.subrange(0, 4)[0] != flip_word()[0]); }
            else if v[at + 1] != 'l' { assert(s.subrange(0, 4)[1] != flip_word()[1]); }
            else if v[at + 2] != 'i' { assert(s.subrange(0, 4)[2] != flip_word()[2]); }
            else { assert(s.subrange(0, 4)[3] != flip_word()[3]); }
        }
    }
    b
}

/// The index past every leading `flip` of `v[at..]`.
fn skip_flips(v: &Vec<char>, at: usize) -> (r: usize)
    requires
        at <= v.len(),
    ensures
        at <= r <= v.len(),
        v@.subrange(r as int, v@.len() as int) == strip_flips(v@.subrange(at as int, v@.len() as int)),
    decreases v.len() - at,
{
    if starts_with_flip(v, at) {
        assert(v@.subrange(at as int, v@.len() as int).subrange(4, v@.len() - at) =~= v@.subrange(at + 4, v@.len() as int));
        skip_flips(v, at + 4)
    } else {
        at
    }
}

/// The index of the first `c` in `v[lo..hi]`.
fn find_first(v: &Vec<char>, lo: usize, hi: usize, c: char) -> (r: Option<usize>)
    requires
        lo <= hi <= v.len(),
    ensures
        match r {
            Some(i) => lo <= i < hi && first_index_of(v@.subrange(lo as int, hi as int), c) == Some(i - lo),
            None => first_index_of(v@.subrange(lo as int, hi as int), c) is None,
        },
{
    let mut i = hi;
    let mut found: Option<usize> = None;
    while i > lo
        invariant
            lo <= i <= hi <= v.len(),
            match found {
                Some(k) => i <= k < hi && first_index_of(v@.subrange(i as int, hi as int), c) == Some(k - i),
                None => first_index_of(v@.subrange(i as int, hi as int), c) is None,
            },
        decreases i - lo,
    {
        i = i - 1;
        assert(v@.subrange(i as int, hi as int).drop_first() =~= v@.subrange(i + 1, hi as int));
        if v[i] == c {
            found = Some(i);
        }
    }
    found
}

} // verus!
