//! The sizes a mirror window asks for: the window a frame fits in, and the
//! display a `--flex-display` session asks the device to make as the window
//! is resized.

use vstd::prelude::*;

verus! {

/// How the picture is turned in the window, clockwise.
#[derive(Debug, Clone, Copy, PartialEq, Eq, Structural)]
pub enum Orientation {
    Normal,
    Rot90,
    Rot180,
    Rot270,
}

impl Orientation {
    /// Whether the turn is a quarter one, which swaps width and height.
    pub open spec fn swaps(self) -> bool {
        self == Orientation::Rot90 || self == Orientation::Rot270
    }

    /// The turn in degrees.
    pub open spec fn degrees_spec(self) -> u16 {
        match self {
            Orientation::Normal => 0,
            Orientation::Rot90 => 90,
            Orientation::Rot180 => 180,
            Orientation::Rot270 => 270,
        }
    }

    /// The orientation of a number of degrees, which is taken modulo a full
    /// turn and rounded down to a quarter one.
    pub open spec fn of_degrees(degrees: u16) -> Orientation {
        let q = (degrees % 360) / 90;
        if q == 0 {
            Orientation::Normal
        } else if q == 1 {
            Orientation::Rot90
        } else if q == 2 {
            Orientation::Rot180
        } else {
            Orientation::Rot270
        }
    }

    /// See `of_degrees`.
    pub fn from_degrees(degrees: u16) -> (o: Orientation)
        ensures
            o == Self::of_degrees(degrees),
    {
        let q = (degrees % 360) / 90;
        if q == 0 {
            Orientation::Normal
        } else if q == 1 {
            Orientation::Rot90
        } else if q == 2 {
            Orientation::Rot180
        } else {
            Orientation::Rot270
        }
    }

    /// The turn in degrees.
    pub fn degrees(self) -> (d: u16)
        ensures
            d == self.degrees_spec(),
    {
        match self {
            Orientation::Normal => 0,
            Orientation::Rot90 => 90,
            Orientation::Rot180 => 180,
            Orientation::Rot270 => 270,
        }
    }

    /// Whether width and height trade places.
    pub fn swaps_dimensions(self) -> (b: bool)
        ensures
            b == self.swaps(),
    {
        match self {
            Orientation::Rot90 | Orientation::Rot270 => true,
            _ => false,
        }
    }

    /// A quarter turn further clockwise.
    pub open spec fn cw(self) -> Orientation {
        match self {
            Orientation::Normal => Orientation::Rot90,
            Orientation::Rot90 => Orientation::Rot180,
            Orientation::Rot180 => Orientation::Rot270,
            Orientation::Rot270 => Orientation::Normal,
        }
    }

    /// A quarter turn back.
    pub open spec fn ccw(self) -> Orientation {
        match self {
            Orientation::Normal => Orientation::Rot270,
            Orientation::Rot90 => Orientation::Normal,
            Orientation::Rot180 => Orientation::Rot90,
            Orientation::Rot270 => Orientation::Rot180,
        }
    }

    /// See `cw`: ninety degrees more, modulo a full turn.
    pub fn rotate_cw(self) -> (o: Orientation)
        ensures
            o == self.cw(),
            o.degrees_spec() == (self.degrees_spec() + 90) % 360,
    {
        match self {
            Orientation::Normal => Orientation::Rot90,
            Orientation::Rot90 => Orientation::Rot180,
            Orientation::Rot180 => Orientation::Rot270,
            Orientation::Rot270 => Orientation::Normal,
        }
    }

    /// See `ccw`: ninety degrees less, modulo a full turn.
    pub fn rotate_ccw(self) -> (o: Orientation)
        ensures
            o == self.ccw(),
            o.degrees_spec() == (self.degrees_spec() + 270) % 360,
    {
        match self {
            Orientation::Normal => Orientation::Rot270,
            Orientation::Rot90 => Orientation::Normal,
            Orientation::Rot180 => Orientation::Rot90,
            Orientation::Rot270 => Orientation::Rot180,
        }
    }
}

/// Turning a quarter clockwise and a quarter back, in either order, is no
/// turn at all; four quarter turns are a whole one; and a turn is what its
/// degrees say it is.
pub proof fn rotations_undo_each_other(o: Orientation)
    ensures
        o.cw().ccw() == o,
        o.ccw().cw() == o,
        o.cw().cw().cw().cw() == o,
        Orientation::of_degrees(o.degrees_spec()) == o,
{
}

/// `--flex-display`: the size to ask the device to make its display, as the
/// window changes. A size is only sent once it has stopped changing.
pub struct FlexDisplay {
    /// The last size seen, which may still be moving.
    seen: (u32, u32),
    /// The last size the device was told about.
    sent: (u32, u32),
}

/// The size the device is asked for, for a window of this size: turned with
/// the picture.
pub open spec fn wanted_size(window: (u32, u32), orientation: Orientation) -> (u32, u32) {
    if orientation.swaps() { (window.1, window.0) } else { window }
}

/// A dimension as the control message carries it.
pub open spec fn clamp_u16(x: u32) -> u16 {
    if x > u16::MAX { u16::MAX } else { x as u16 }
}

/// One poll: the sizes seen and sent afterwards, and what is sent.
pub open spec fn poll_spec(seen: (u32, u32), sent: (u32, u32), window: (u32, u32), orientation: Orientation) -> ((u32, u32), (u32, u32), Option<(u16, u16)>) {
    let wanted = wanted_size(window, orientation);
    if window.0 == 0 || window.1 == 0 {
        (seen, sent, None)
    } else if wanted != seen {
        (wanted, sent, None)
    } else if wanted == sent {
        (seen, sent, None)
    } else {
        (seen, wanted, Some((clamp_u16(wanted.0), clamp_u16(wanted.1))))
    }
}

impl FlexDisplay {
    /// The last size seen.
    pub closed spec fn seen(&self) -> (u32, u32) {
        self.seen
    }

    /// The last size sent.
    pub closed spec fn sent(&self) -> (u32, u32) {
        self.sent
    }

    /// Nothing seen, nothing sent.
    pub fn new() -> (f: Self)
        ensures
            f.seen() == (0u32, 0u32),
            f.sent() == (0u32, 0u32),
    {
        FlexDisplay { seen: (0, 0), sent: (0, 0) }
    }

    /// The size to send now, or `None` while the window is still moving, has
    /// no size, or is already the size the device was last told.
    pub fn poll(&mut self, window: (u32, u32), orientation: Orientation) -> (r: Option<(u16, u16)>)
        ensures
            (final(self).seen(), final(self).sent(), r) == poll_spec(old(self).seen(), old(self).sent(), window, orientation),
    {
        if window.0 == 0 || window.1 == 0 {
            return None;
        }
        let wanted = if orientation.swaps_dimensions() { (window.1, window.0) } else { window };
        if wanted.0 != self.seen.0 || wanted.1 != self.seen.1 {
            self.seen = wanted;
            return None;
        }
        if wanted.0 == self.sent.0 && wanted.1 == self.sent.1 {
            return None;
        }
        self.sent = wanted;
        let w = if wanted.0 > 65535 { 65535u16 } else { wanted.0 as u16 };
        let h = if wanted.1 > 65535 { 65535u16 } else { wanted.1 as u16 };
        Some((w, h))
    }
}

impl Default for FlexDisplay {
    fn default() -> (f: Self)
        ensures
            f.seen() == (0u32, 0u32),
            f.sent() == (0u32, 0u32),
    {
        Self::new()
    }
}

/// A window that holds still is sent exactly once: of three polls of the
/// same window, from any state, the third says nothing, the first two do not
/// both speak, and one of them does unless the device already has that size.
pub proof fn a_still_window_is_sent_once(seen: (u32, u32), sent: (u32, u32), window: (u32, u32), o: Orientation)
    requires
        window.0 != 0 && window.1 != 0,
    ensures
        ({
            let (s1, t1, r1) = poll_spec(seen, sent, window, o);
            let (s2, t2, r2) = poll_spec(s1, t1, window, o);
            let (s3, t3, r3) = poll_spec(s2, t2, window, o);
            &&& r3 is None
            &&& (r1 is None || r2 is None)
            &&& (wanted_size(window, o) != sent ==> (r1 is Some || r2 is Some))
        }),
{
}

/// The room a window may take: a common desktop, less what panels and
/// window decorations need.
pub const MAX_WINDOW_WIDTH: u32 = 1824;
pub const MAX_WINDOW_HEIGHT: u32 = 984;

/// The window size that shows the whole frame without exceeding a common
/// desktop, keeping the aspect ratio: scaled down to the width first, then to
/// the height, and never smaller than one pixel.
pub open spec fn optimal_size_spec(frame_w: u32, frame_h: u32, orientation: Orientation) -> (int, int) {
    let (w0, h0) = if orientation.swaps() { (frame_h as int, frame_w as int) } else { (frame_w as int, frame_h as int) };
    if w0 == 0 || h0 == 0 {
        (1, 1)
    } else {
        let (w1, h1) = if w0 > MAX_WINDOW_WIDTH { (MAX_WINDOW_WIDTH as int, h0 * MAX_WINDOW_WIDTH / w0) } else { (w0, h0) };
        let (w2, h2) = if h1 > MAX_WINDOW_HEIGHT { (w1 * MAX_WINDOW_HEIGHT / h1, MAX_WINDOW_HEIGHT as int) } else { (w1, h1) };
        (if w2 > 1 { w2 } else { 1 }, if h2 > 1 { h2 } else { 1 })
    }
}

/// Whether `optimal_window_size` computes within `u32`: scaling a frame
/// that is too wide multiplies its height by the width allowed.
pub open spec fn optimal_size_fits(frame_w: u32, frame_h: u32, orientation: Orientation) -> bool {
    let (w0, h0) = if orientation.swaps() { (frame_h as int, frame_w as int) } else { (frame_w as int, frame_h as int) };
    w0 > MAX_WINDOW_WIDTH ==> h0 * MAX_WINDOW_WIDTH <= u32::MAX
}

/// See `optimal_size_spec`.
pub fn optimal_window_size(frame_w: u32, frame_h: u32, orientation: Orientation) -> (r: (u32, u32))
    requires
        optimal_size_fits(frame_w, frame_h, orientation),
    ensures
        (r.0 as int, r.1 as int) == optimal_size_spec(frame_w, frame_h, orientation),
{
    let (mut w, mut h) = if orientation.swaps_dimensions() { (frame_h, frame_w) } else { (frame_w, frame_h) };
    if w == 0 || h == 0 {
        return (1, 1);
    }
    if w > MAX_WINDOW_WIDTH {
        h = h * MAX_WINDOW_WIDTH / w;
        w = MAX_WINDOW_WIDTH;
    }
    if h > MAX_WINDOW_HEIGHT {
        assert(w <= MAX_WINDOW_WIDTH);
        w = w * MAX_WINDOW_HEIGHT / h;
        h = MAX_WINDOW_HEIGHT;
    }
    (if w > 1 { w } else { 1 }, if h > 1 { h } else { 1 })
}


/// The window follows the picture as it is turned: a quarter turn either
/// way gives the same window, the one the frame would get with its width
/// and height exchanged, and a half turn gives the window of the unturned
/// frame.
pub proof fn a_quarter_turn_swaps_the_window(w: u32, h: u32)
    ensures
        optimal_size_spec(w, h, Orientation::Rot270) == optimal_size_spec(w, h, Orientation::Rot90),
        optimal_size_spec(w, h, Orientation::Rot90) == optimal_size_spec(h, w, Orientation::Normal),
        optimal_size_spec(w, h, Orientation::Rot180) == optimal_size_spec(w, h, Orientation::Normal),
{
}

} // verus!
