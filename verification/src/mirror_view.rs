//! What the mirror window decides for itself, apart from drawing: which way
//! round the picture is, whether it is mirrored or paused, what each window
//! shortcut does to that, how the input translator is set up from the
//! command line, and what a round of the frame pump does with the newest
//! frame.

use vstd::prelude::*;
use crate::mirror_host::Orientation;
use crate::options::Options;
use crate::option_values::{rgb_from_hex, rgb_spec};
use crate::text::text_eq;

verus! {

/// How the picture stands in the window.
#[derive(Debug, Clone, Copy, PartialEq, Eq, Structural)]
pub struct ViewState {
    pub orientation: Orientation,
    /// Mirrored left to right, before the rotation.
    pub flipped: bool,
    /// Frozen on the last frame, while the stream keeps arriving.
    pub paused: bool,
}

/// The window shortcuts the view answers itself; every other action goes
/// to the session.
#[derive(Debug, Clone, Copy, PartialEq, Eq, Structural)]
pub enum ViewAction {
    RotateCw,
    RotateCcw,
    FlipHorizontal,
    FlipVertical,
    Pause,
    Unpause,
    ToggleFps,
}

/// What the window has to do after a shortcut.
#[derive(Debug, Clone, Copy, PartialEq, Eq, Structural)]
pub enum ViewEffect {
    /// The picture turned: the view is told its new geometry.
    Geometry,
    /// The frame counter is switched on or off.
    ToggleFps,
    /// Nothing to redraw.
    Nothing,
}

/// What a shortcut does. A vertical flip is a horizontal one turned half way
/// round, so only the horizontal mirror is ever drawn.
pub open spec fn view_action_spec(s: ViewState, a: ViewAction) -> (ViewState, ViewEffect) {
    match a {
        ViewAction::RotateCw => (ViewState { orientation: s.orientation.cw(), ..s }, ViewEffect::Geometry),
        ViewAction::RotateCcw => (ViewState { orientation: s.orientation.ccw(), ..s }, ViewEffect::Geometry),
        ViewAction::FlipHorizontal => (ViewState { flipped: !s.flipped, ..s }, ViewEffect::Geometry),
        ViewAction::FlipVertical => (
            ViewState { flipped: !s.flipped, orientation: s.orientation.cw().cw(), ..s },
            ViewEffect::Geometry,
        ),
        ViewAction::Pause => (ViewState { paused: true, ..s }, ViewEffect::Nothing),
        ViewAction::Unpause => (ViewState { paused: false, ..s }, ViewEffect::Nothing),
        ViewAction::ToggleFps => (s, ViewEffect::ToggleFps),
    }
}

/// See `view_action_spec`.
pub fn view_action(s: ViewState, a: ViewAction) -> (r: (ViewState, ViewEffect))
    ensures
        r == view_action_spec(s, a),
{
    match a {
        ViewAction::RotateCw => (ViewState { orientation: s.orientation.rotate_cw(), ..s }, ViewEffect::Geometry),
        ViewAction::RotateCcw => (ViewState { orientation: s.orientation.rotate_ccw(), ..s }, ViewEffect::Geometry),
        ViewAction::FlipHorizontal => (ViewState { flipped: !s.flipped, ..s }, ViewEffect::Geometry),
        ViewAction::FlipVertical => (
            ViewState { flipped: !s.flipped, orientation: s.orientation.rotate_cw().rotate_cw(), ..s },
            ViewEffect::Geometry,
        ),
        ViewAction::Pause => (ViewState { paused: true, ..s }, ViewEffect::Nothing),
        ViewAction::Unpause => (ViewState { paused: false, ..s }, ViewEffect::Nothing),
        ViewAction::ToggleFps => (s, ViewEffect::ToggleFps),
    }
}

/// Every shortcut that changes the picture can be undone: a turn by the
/// opposite turn, either flip by itself, a pause by unpausing.
pub proof fn every_view_change_can_be_undone(s: ViewState)
    ensures
        view_action_spec(view_action_spec(s, ViewAction::RotateCw).0, ViewAction::RotateCcw).0 == s,
        view_action_spec(view_action_spec(s, ViewAction::RotateCcw).0, ViewAction::RotateCw).0 == s,
        view_action_spec(view_action_spec(s, ViewAction::FlipHorizontal).0, ViewAction::FlipHorizontal).0 == s,
        view_action_spec(view_action_spec(s, ViewAction::FlipVertical).0, ViewAction::FlipVertical).0 == s,
        !s.paused ==> view_action_spec(view_action_spec(s, ViewAction::Pause).0, ViewAction::Unpause).0 == s,
        view_action_spec(s, ViewAction::ToggleFps).0 == s,
{
}

/// How the window starts: `--display-orientation`, or `--orientation`.
pub open spec fn initial_view_spec(o: Options) -> ViewState {
    let (degrees, flipped) = o.display_rotation_spec();
    ViewState { orientation: Orientation::of_degrees(degrees), flipped, paused: false }
}

/// See `initial_view_spec`.
pub fn initial_view(o: &Options) -> (s: ViewState)
    ensures
        s == initial_view_spec(*o),
{
    let (degrees, flipped) = o.display_rotation();
    ViewState { orientation: Orientation::from_degrees(degrees), flipped, paused: false }
}

/// The key inject mode the input translator is given: `--raw-key-events`
/// and `--prefer-text` are shorthands that win over `--key-inject-mode`.
pub open spec fn key_inject_mode_spec(o: Options) -> Seq<char> {
    if o.raw_key_events {
        "raw"@
    } else if o.prefer_text {
        "text"@
    } else {
        o.key_inject_mode@
    }
}

/// See `key_inject_mode_spec`.
pub fn key_inject_mode_of(o: &Options) -> (r: &str)
    ensures
        r@ == key_inject_mode_spec(*o),
{
    if o.raw_key_events {
        "raw"
    } else if o.prefer_text {
        "text"
    } else {
        o.key_inject_mode.as_str()
    }
}

/// The mouse bindings the input translator is given: `--forward-all-clicks`
/// is the shorthand for forwarding every button.
pub open spec fn mouse_bind_spec(o: Options) -> Option<Seq<char>> {
    if o.forward_all_clicks {
        Some("++++"@)
    } else {
        match o.mouse_bind {
            Some(b) => Some(b@),
            None => None,
        }
    }
}

/// See `mouse_bind_spec`.
pub fn mouse_bind_of(o: &Options) -> (r: Option<&str>)
    ensures
        match r {
            Some(b) => mouse_bind_spec(*o) == Some(b@),
            None => mouse_bind_spec(*o) is None,
        },
{
    if o.forward_all_clicks {
        Some("++++")
    } else {
        match &o.mouse_bind {
            Some(b) => Some(b.as_str()),
            None => None,
        }
    }
}

/// How the input translator filters what it forwards: held keys unless told
/// not to, pointer motion without a button unless told not to, and whether
/// the picture is a camera's.
pub fn input_filters(o: &Options) -> (r: (bool, bool, bool))
    ensures
        r == (o.forward_key_repeat && !o.no_key_repeat, !o.no_mouse_hover, o.video_source@ == "camera"@),
{
    (o.key_repeat_forwarded(), !o.no_mouse_hover, text_eq(o.video_source.as_str(), "camera"))
}

/// The colour behind the picture, when `--background-color` gives one.
pub fn backdrop(o: &Options) -> (r: Option<(u8, u8, u8)>)
    ensures
        r == match o.background_color {
            Some(c) => rgb_spec(c@),
            None => None,
        },
{
    match &o.background_color {
        Some(c) => rgb_from_hex(c.as_str()),
        None => None,
    }
}

/// What one round of the frame pump does with the newest frame.
#[derive(Debug, Clone, Copy, PartialEq, Eq, Structural)]
pub struct PumpRound {
    /// The stream changed size: the view is told its new geometry.
    pub resized: bool,
    /// The frame is turned into a picture and drawn.
    pub draw: bool,
    /// This is the first picture drawn, and the view is told it is live.
    pub goes_live: bool,
}

/// One round of the pump, given the newest frame's size. Under
/// `--no-video-playback`, and while paused, the frame is still taken and
/// handed back, so that the decoder and a recording behind it never stall:
/// it is just not drawn.
pub open spec fn pump_round_spec(known: (u32, u32), frame: (u32, u32), playback: bool, paused: bool, live: bool) -> PumpRound {
    let draw = playback && !paused;
    PumpRound { resized: frame != known, draw, goes_live: draw && !live }
}

/// See `pump_round_spec`.
pub fn pump_round(known: (u32, u32), frame: (u32, u32), playback: bool, paused: bool, live: bool) -> (r: PumpRound)
    ensures
        r == pump_round_spec(known, frame, playback, paused, live),
{
    let draw = playback && !paused;
    PumpRound { resized: frame.0 != known.0 || frame.1 != known.1, draw, goes_live: draw && !live }
}

/// The newest of the frames waiting, and the older ones, which go straight
/// back to the decoder's pool undrawn, so a slow compositor never builds a
/// queue of stale pictures.
pub fn newest<T>(mut waiting: Vec<T>) -> (r: (Option<T>, Vec<T>))
    ensures
        waiting@.len() == 0 ==> r.0 is None && r.1@ == Seq::<T>::empty(),
        waiting@.len() > 0 ==> r.0 == Some(waiting@.last()) && r.1@ == waiting@.drop_last(),
{
    let last = waiting.pop();
    (last, waiting)
}

} // verus!
