//! The screen recorder's decisions: what it queues, what it takes off the
//! queues, and in which order and with which timestamps the packets reach the
//! muxer.
//!
//! The packets are muxed as they arrive, with no re-encoding. The thread that
//! owns the muxer alternates between waiting on the queues and writing; what
//! it waits for, what it pops and what it writes are decided here, and the
//! waiting and the writing are the caller's.

use vstd::prelude::*;
use std::collections::VecDeque;

verus! {

/// The timestamp of a config packet (`AV_NOPTS_VALUE`).
pub const AV_NOPTS: i64 = i64::MIN;

/// A raw packet as received from the demuxer.
#[derive(Clone, Debug)]
pub struct RecPacket {
    pub data: Vec<u8>,
    /// `AV_NOPTS` for config packets.
    pub pts: i64,
    pub is_key: bool,
}

/// A config packet carries the stream's extradata rather than a frame.
pub open spec fn is_config(p: RecPacket) -> bool {
    p.pts == AV_NOPTS
}

/// What the recorder knows of the video stream before it opens the file.
#[derive(Clone, Copy, Debug, PartialEq, Eq, Structural)]
pub struct VideoCodecInfo {
    /// The `AVCodecID` value.
    pub codec_id: u32,
    pub width: i32,
    pub height: i32,
}

/// The state the producer threads and the recorder thread share: one queue
/// per stream, and what is known of the codecs.
pub struct Recorder {
    video_queue: VecDeque<RecPacket>,
    audio_queue: VecDeque<RecPacket>,
    video_init: bool,
    audio_init: bool,
    stopped: bool,
    video_codec: Option<VideoCodecInfo>,
    audio_codec_id: Option<u32>,
    audio_expects_config: bool,
}

/// The recorder's state, as mathematics.
pub struct RecorderModel {
    pub video: Seq<RecPacket>,
    pub audio: Seq<RecPacket>,
    pub video_init: bool,
    pub audio_init: bool,
    pub stopped: bool,
    pub video_codec: Option<VideoCodecInfo>,
    pub audio_codec_id: Option<u32>,
    pub audio_expects_config: bool,
}

impl View for Recorder {
    type V = RecorderModel;

    closed spec fn view(&self) -> RecorderModel {
        RecorderModel {
            video: self.video_queue@,
            audio: self.audio_queue@,
            video_init: self.video_init,
            audio_init: self.audio_init,
            stopped: self.stopped,
            video_codec: self.video_codec,
            audio_codec_id: self.audio_codec_id,
            audio_expects_config: self.audio_expects_config,
        }
    }
}

/// The index of the first config packet with data in `q`, at or after `from`.
pub open spec fn first_config_from(q: Seq<RecPacket>, from: int) -> Option<int>
    decreases q.len() - from,
{
    if from < 0 || from >= q.len() {
        None
    } else if is_config(q[from]) && q[from].data@.len() > 0 {
        Some(from)
    } else {
        first_config_from(q, from + 1)
    }
}

/// What the recorder thread does once it has looked at the codecs.
#[derive(Clone, Copy, Debug, PartialEq, Eq, Structural)]
pub enum CodecWait {
    /// Not everything it needs is known yet: wait and ask again.
    Wait,
    /// Stopped before anything was known: there is nothing to record.
    Abandon,
    /// Open the file with these.
    Proceed(Option<VideoCodecInfo>, Option<u32>, bool),
}

/// What became of the head of the audio queue when the audio extradata was
/// looked for.
#[derive(Clone, Debug)]
pub enum AudioHead {
    /// The queue is empty and the recorder is not stopped: wait and ask
    /// again.
    Wait,
    /// Nothing to take: stopped with an empty queue.
    Nothing,
    /// A config packet with data, taken off the queue for the extradata.
    Config(RecPacket),
    /// The head was not a config packet and has been left where it was.
    Media,
    /// A config packet with no data, dropped.
    Empty,
}

impl Recorder {
    /// An empty recorder that knows nothing yet.
    pub fn new() -> (r: Self)
        ensures
            r@.video == Seq::<RecPacket>::empty(),
            r@.audio == Seq::<RecPacket>::empty(),
            !r@.video_init,
            !r@.audio_init,
            !r@.stopped,
            r@.video_codec is None,
            r@.audio_codec_id is None,
            !r@.audio_expects_config,
    {
        Recorder {
            video_queue: VecDeque::new(),
            audio_queue: VecDeque::new(),
            video_init: false,
            audio_init: false,
            stopped: false,
            video_codec: None,
            audio_codec_id: None,
            audio_expects_config: false,
        }
    }

    /// The video codec is known.
    pub fn set_video_codec(&mut self, info: VideoCodecInfo)
        ensures
            final(self)@ == (RecorderModel {
                video_codec: Some(info),
                video_init: true,
                ..old(self)@
            }),
    {
        self.video_codec = Some(info);
        self.video_init = true;
    }

    /// The audio codec is known, and whether a config packet will come first.
    pub fn set_audio_codec(&mut self, codec_id: u32, expects_config: bool)
        ensures
            final(self)@ == (RecorderModel {
                audio_codec_id: Some(codec_id),
                audio_expects_config: expects_config,
                audio_init: true,
                ..old(self)@
            }),
    {
        self.audio_codec_id = Some(codec_id);
        self.audio_expects_config = expects_config;
        self.audio_init = true;
    }

    /// Queue a video packet; `false`, and nothing queued, once stopped.
    pub fn push_video(&mut self, pkt: RecPacket) -> (queued: bool)
        ensures
            queued == !old(self)@.stopped,
            final(self)@ == (if queued {
                RecorderModel { video: old(self)@.video.push(pkt), ..old(self)@ }
            } else {
                old(self)@
            }),
    {
        if self.stopped {
            return false;
        }
        let mut q: VecDeque<RecPacket> = VecDeque::new();
        std::mem::swap(&mut q, &mut self.video_queue);
        q.push_back(pkt);
        self.video_queue = q;
        true
    }

    /// Queue an audio packet; `false`, and nothing queued, once stopped.
    pub fn push_audio(&mut self, pkt: RecPacket) -> (queued: bool)
        ensures
            queued == !old(self)@.stopped,
            final(self)@ == (if queued {
                RecorderModel { audio: old(self)@.audio.push(pkt), ..old(self)@ }
            } else {
                old(self)@
            }),
    {
        if self.stopped {
            return false;
        }
        let mut q: VecDeque<RecPacket> = VecDeque::new();
        std::mem::swap(&mut q, &mut self.audio_queue);
        q.push_back(pkt);
        self.audio_queue = q;
        true
    }

    /// No more packets are taken, and the recorder thread winds down.
    pub fn stop(&mut self)
        ensures
            final(self)@ == (RecorderModel { stopped: true, ..old(self)@ }),
    {
        self.stopped = true;
    }

    /// Whether the recorder has been told to stop.
    pub fn is_stopped(&self) -> (b: bool)
        ensures
            b == self@.stopped,
    {
        self.stopped
    }

    /// How many packets each queue holds.
    pub fn queued(&self) -> (n: (usize, usize))
        ensures
            n.0 == self@.video.len(),
            n.1 == self@.audio.len(),
    {
        (self.video_queue.len(), self.audio_queue.len())
    }

    /// Step 1 of the recorder thread: whether it can open the file yet.
    ///
    /// It waits until every stream it records has a codec, unless stopped;
    /// stopped with no codec known at all, there is nothing to record.
    pub fn codec_wait(&self, has_video: bool, has_audio: bool) -> (w: CodecWait)
        ensures
            w == (if !(((!has_video || self@.video_init) && (!has_audio || self@.audio_init))
                || self@.stopped) {
                CodecWait::Wait
            } else if self@.stopped && !self@.video_init && !self@.audio_init {
                CodecWait::Abandon
            } else {
                CodecWait::Proceed(self@.video_codec, self@.audio_codec_id, self@.audio_expects_config)
            }),
    {
        let video_ready = !has_video || self.video_init;
        let audio_ready = !has_audio || self.audio_init;
        if !((video_ready && audio_ready) || self.stopped) {
            CodecWait::Wait
        } else if self.stopped && !self.video_init && !self.audio_init {
            CodecWait::Abandon
        } else {
            CodecWait::Proceed(self.video_codec, self.audio_codec_id, self.audio_expects_config)
        }
    }

    /// Look for the video extradata: drop packets from the head of the queue
    /// until a config packet with data, and take that one.
    ///
    /// Media packets queued ahead of it belong to a picture that began before
    /// the recording, and cannot be decoded from the file. With no such
    /// packet the queue is emptied and `None` comes back; the caller waits for
    /// more unless stopped.
    pub fn take_video_config(&mut self) -> (found: Option<RecPacket>)
        ensures
            match first_config_from(old(self)@.video, 0) {
                Some(i) => {
                    &&& found == Some(old(self)@.video[i])
                    &&& final(self)@ == (RecorderModel {
                        video: old(self)@.video.subrange(i + 1, old(self)@.video.len() as int),
                        ..old(self)@
                    })
                },
                None => {
                    &&& found is None
                    &&& final(self)@ == (RecorderModel { video: Seq::empty(), ..old(self)@ })
                },
            },
    {
        let mut queue: VecDeque<RecPacket> = VecDeque::new();
        std::mem::swap(&mut queue, &mut self.video_queue);
        let ghost q = queue@;
        let ghost mut k: int = 0;
        loop
            invariant
                0 <= k <= q.len(),
                queue@ == q.subrange(k, q.len() as int),
                first_config_from(q, 0) == first_config_from(q, k),
                self@ == (RecorderModel { video: Seq::empty(), ..old(self)@ }),
                q == old(self)@.video,
            decreases q.len() - k,
        {
            match queue.pop_front() {
                Some(packet) => {
                    assert(packet == q[k]);
                    if packet.pts == AV_NOPTS && packet.data.len() > 0 {
                        assert(first_config_from(q, k) == Some(k));
                        assert(queue@ =~= q.subrange(k + 1, q.len() as int));
                        self.video_queue = queue;
                        return Some(packet);
                    }
                    proof {
                        k = k + 1;
                    }
                    assert(queue@ =~= q.subrange(k, q.len() as int));
                },
                None => {
                    assert(k == q.len());
                    assert(first_config_from(q, k) is None);
                    assert(queue@ =~= Seq::<RecPacket>::empty());
                    self.video_queue = queue;
                    return None;
                },
            }
        }
    }

    /// Look for the audio extradata at the head of the audio queue.
    ///
    /// A config packet with data is taken for the extradata; one with no data
    /// is dropped; anything else stays where it is, to be written.
    pub fn take_audio_head(&mut self) -> (h: AudioHead)
        ensures
            old(self)@.audio.len() == 0 ==> (final(self)@ == old(self)@ && (if old(self)@.stopped {
                h is Nothing
            } else {
                h is Wait
            })),
            old(self)@.audio.len() > 0 ==> ({
                let head = old(self)@.audio[0];
                let rest = RecorderModel {
                    audio: old(self)@.audio.subrange(1, old(self)@.audio.len() as int),
                    ..old(self)@
                };
                if is_config(head) && head.data@.len() > 0 {
                    h == AudioHead::Config(head) && final(self)@ == rest
                } else if !is_config(head) {
                    h is Media && final(self)@ == old(self)@
                } else {
                    h is Empty && final(self)@ == rest
                }
            }),
    {
        if self.audio_queue.len() == 0 {
            return if self.stopped { AudioHead::Nothing } else { AudioHead::Wait };
        }
        let mut queue: VecDeque<RecPacket> = VecDeque::new();
        std::mem::swap(&mut queue, &mut self.audio_queue);
        let ghost q = queue@;
        let h = match queue.pop_front() {
            Some(head) => {
                if head.pts == AV_NOPTS && head.data.len() > 0 {
                    AudioHead::Config(head)
                } else if head.pts != AV_NOPTS {
                    queue.push_front(head);
                    assert(queue@ =~= q);
                    AudioHead::Media
                } else {
                    AudioHead::Empty
                }
            },
            None => AudioHead::Nothing,
        };
        self.audio_queue = queue;
        h
    }

    /// Whether the packet loop has something to do this round, or is to wait.
    pub fn round_ready(&self, lp: &PacketLoop) -> (b: bool)
        ensures
            b == (self@.stopped || lp.ready(self@.video.len() > 0, self@.audio.len() > 0)),
    {
        let has_v = self.video_queue.len() > 0;
        let has_a = self.audio_queue.len() > 0;
        self.stopped || lp.is_ready(has_v, has_a)
    }

    /// Take this round's packets: from each stream that `should_pop` allows,
    /// the head of its queue. Also whether the recorder was stopped.
    pub fn take_round(&mut self, lp: &PacketLoop) -> (r: (Option<RecPacket>, Option<RecPacket>, bool))
        ensures
            r.2 == old(self)@.stopped,
            ({
                let pop_v = lp.origin_known() || !lp.holds_video();
                let pop_a = lp.has_audio() && (lp.origin_known() || !lp.holds_audio());
                let v = old(self)@.video;
                let a = old(self)@.audio;
                &&& r.0 == (if pop_v && v.len() > 0 { Some(v[0]) } else { None::<RecPacket> })
                &&& r.1 == (if pop_a && a.len() > 0 { Some(a[0]) } else { None::<RecPacket> })
                &&& final(self)@ == RecorderModel {
                    video: if pop_v && v.len() > 0 { v.subrange(1, v.len() as int) } else { v },
                    audio: if pop_a && a.len() > 0 { a.subrange(1, a.len() as int) } else { a },
                    ..old(self)@
                }
            }),
    {
        let origin_known = lp.is_origin_known();
        let mut vq: VecDeque<RecPacket> = VecDeque::new();
        std::mem::swap(&mut vq, &mut self.video_queue);
        let mut aq: VecDeque<RecPacket> = VecDeque::new();
        std::mem::swap(&mut aq, &mut self.audio_queue);
        let v = if should_pop(origin_known, lp.is_holding_video()) {
            vq.pop_front()
        } else {
            None
        };
        let a = if lp.audio_stream() && should_pop(origin_known, lp.is_holding_audio()) {
            aq.pop_front()
        } else {
            None
        };
        self.video_queue = vq;
        self.audio_queue = aq;
        (v, a, self.stopped)
    }
}

/// Whether to take another packet from a stream's queue this round.
///
/// Once the origin is known, always: the packet is written straight away.
/// Before it, only if nothing is already being held aside for that stream —
/// a second packet would have nowhere to go.
pub fn should_pop(origin_known: bool, holding_one: bool) -> (b: bool)
    ensures
        b == (origin_known || !holding_one),
{
    origin_known || !holding_one
}

/// One packet on its way to the muxer, with the timestamp and duration it is
/// written with, in microseconds from the start of the recording.
#[derive(Clone, Debug)]
pub struct PacketWrite {
    /// The video stream rather than the audio one.
    pub video: bool,
    pub packet: RecPacket,
    pub pts: i64,
    /// Zero for no duration.
    pub duration: i64,
}

/// The packet loop's own state, between rounds.
///
/// The two streams share one clock, so nothing can be written until the first
/// packet of each has been seen: those are held aside meanwhile, and the
/// earlier of the two timestamps becomes the origin. A video packet is then
/// written one round late, once the next one tells how long it lasts.
pub struct PacketLoop {
    /// `AV_NOPTS` until it is known.
    origin: i64,
    pending_v: Option<RecPacket>,
    pending_a: Option<RecPacket>,
    prev_v: Option<RecPacket>,
    /// Whether there is a video stream and an audio stream in the file.
    video: bool,
    audio: bool,
}

/// A held packet, as a sequence of zero or one.
pub open spec fn held(p: Option<RecPacket>) -> Seq<RecPacket> {
    match p {
        Some(x) => seq![x],
        None => Seq::empty(),
    }
}

/// A packet offered to the loop, as a sequence of zero or one: config
/// packets are not written.
pub open spec fn offered(p: Option<RecPacket>) -> Seq<RecPacket> {
    match p {
        Some(x) => if is_config(x) { Seq::empty() } else { seq![x] },
        None => Seq::empty(),
    }
}

/// The timestamp of a packet offered to the loop, unless there is none or
/// it is a config packet.
pub open spec fn frame_pts(p: Option<RecPacket>) -> Option<i64> {
    match p {
        Some(x) => if is_config(x) { None } else { Some(x.pts) },
        None => None,
    }
}

/// The head of `q`, when the loop takes from it this round.
pub open spec fn taken(pop: bool, q: Seq<RecPacket>) -> Option<RecPacket> {
    if pop && q.len() > 0 { Some(q[0]) } else { None }
}

/// A value an `i64` holds.
pub open spec fn in_i64(x: int) -> bool {
    i64::MIN <= x <= i64::MAX
}

/// Whether a round's arithmetic, measured from origin `o`, stays in `i64`:
/// the video packet's timestamp and, with a video packet before it, that
/// one's timestamp and the gap between the two; the audio packet's
/// timestamp.
pub open spec fn round_fits(o: int, v: Option<i64>, a: Option<i64>, prev: Option<i64>) -> bool {
    &&& match v {
        Some(c) => in_i64(c - o) && match prev {
            Some(p) => in_i64(p - o) && in_i64((c - o) - (p - o)),
            None => true,
        },
        None => true,
    }
    &&& match a {
        Some(x) => in_i64(x - o),
        None => true,
    }
}

/// The earlier of two first timestamps, or the one there is.
pub open spec fn first_origin(v: Option<i64>, a: Option<i64>) -> int {
    match (v, a) {
        (Some(x), Some(y)) => if x < y { x as int } else { y as int },
        (Some(x), None) => x as int,
        (None, Some(y)) => y as int,
        (None, None) => 0,
    }
}

/// `x`, held to what an `i64` can hold.
pub open spec fn saturated(x: int) -> i64 {
    if x > i64::MAX { i64::MAX } else if x < i64::MIN { i64::MIN } else { x as i64 }
}

/// The packets of a queue that the loop writes: every one but the config
/// packets, in queue order.
pub open spec fn writable_of(q: Seq<RecPacket>) -> Seq<RecPacket>
    decreases q.len(),
{
    if q.len() == 0 {
        Seq::empty()
    } else {
        offered(Some(q[0])) + writable_of(q.drop_first())
    }
}

/// The packets of `w` written to one stream, in order.
pub open spec fn written(w: Seq<PacketWrite>, video: bool) -> Seq<RecPacket>
    decreases w.len(),
{
    if w.len() == 0 {
        Seq::empty()
    } else if w.last().video == video {
        written(w.drop_last(), video).push(w.last().packet)
    } else {
        written(w.drop_last(), video)
    }
}

/// `o` is the earliest timestamp of the packets in `vs` and `aus`, one of
/// which has it.
pub open spec fn earliest(o: i64, vs: Seq<RecPacket>, aus: Seq<RecPacket>) -> bool {
    &&& forall|i: int| 0 <= i < vs.len() ==> o <= (#[trigger] vs[i]).pts
    &&& forall|i: int| 0 <= i < aus.len() ==> o <= (#[trigger] aus[i]).pts
    &&& (exists|i: int| 0 <= i < vs.len() && (#[trigger] vs[i]).pts == o)
        || (exists|i: int| 0 <= i < aus.len() && (#[trigger] aus[i]).pts == o)
}

/// What one round of the packet loop decided.
pub struct Round {
    /// What to write, in this order.
    pub writes: Vec<PacketWrite>,
    /// Whether the loop is over.
    pub finished: bool,
}

impl PacketLoop {
    #[verifier::type_invariant]
    spec fn wf(self) -> bool {
        &&& (self.origin == AV_NOPTS ==> self.prev_v is None)
        &&& (self.origin != AV_NOPTS ==> self.pending_v is None && self.pending_a is None)
        &&& (self.pending_v matches Some(p) ==> !is_config(p))
        &&& (self.pending_a matches Some(p) ==> !is_config(p))
        &&& (self.prev_v matches Some(p) ==> !is_config(p))
    }

    /// Whether the round that offers frames with these timestamps (`None`
    /// for no frame) computes without leaving `i64`: every timestamp it
    /// writes is measured from the origin, the one it settles if it settles
    /// one, and a video packet's duration is the gap to the next.
    pub closed spec fn round_computes(&self, v: Option<i64>, a: Option<i64>, stopped: bool) -> bool {
        if self.origin != AV_NOPTS {
            round_fits(self.origin as int, v, a, frame_pts(self.prev_v))
        } else {
            let pv = if self.pending_v is Some { frame_pts(self.pending_v) } else { v };
            let pa = if self.pending_a is Some { frame_pts(self.pending_a) } else { a };
            let have_v = !self.video || pv is Some;
            let have_a = !self.audio || pa is Some;
            if (pv is None && pa is None) || ((!have_v || !have_a) && !stopped) {
                true
            } else {
                round_fits(first_origin(pv, pa), pv, pa, None)
            }
        }
    }

    /// See `round_computes`: whether `step` can take this round.
    pub open spec fn step_fits(&self, vpkt: Option<RecPacket>, apkt: Option<RecPacket>, stopped: bool) -> bool {
        self.round_computes(frame_pts(vpkt), frame_pts(apkt), stopped)
    }

    /// Whether the loop takes a video packet off its queue this round.
    pub open spec fn pops_video(&self) -> bool {
        self.origin_known() || !self.holds_video()
    }

    /// Whether the loop takes an audio packet off its queue this round.
    pub open spec fn pops_audio(&self) -> bool {
        self.has_audio() && (self.origin_known() || !self.holds_audio())
    }

    /// See `round_computes`.
    pub fn can_step(&self, v: Option<i64>, a: Option<i64>, stopped: bool) -> (b: bool)
        ensures
            b == self.round_computes(v, a, stopped),
    {
        if self.origin != AV_NOPTS {
            let prev = match &self.prev_v {
                Some(p) => if p.pts == AV_NOPTS { None } else { Some(p.pts) },
                None => None,
            };
            round_fits_exec(self.origin, v, a, prev)
        } else {
            let pv = match &self.pending_v {
                Some(p) => if p.pts == AV_NOPTS { None } else { Some(p.pts) },
                None => v,
            };
            let pa = match &self.pending_a {
                Some(p) => if p.pts == AV_NOPTS { None } else { Some(p.pts) },
                None => a,
            };
            let have_v = !self.video || pv.is_some();
            let have_a = !self.audio || pa.is_some();
            if (pv.is_none() && pa.is_none()) || ((!have_v || !have_a) && !stopped) {
                true
            } else {
                let o = match (pv, pa) {
                    (Some(x), Some(y)) => if x < y { x } else { y },
                    (Some(x), None) => x,
                    (None, Some(y)) => y,
                    (None, None) => 0,
                };
                round_fits_exec(o, pv, pa, None)
            }
        }
    }

    /// Whether the origin is known.
    pub closed spec fn origin_known(&self) -> bool {
        self.origin != AV_NOPTS
    }

    /// The origin, once known.
    pub closed spec fn origin(&self) -> i64 {
        self.origin
    }

    /// Whether a video packet is held aside while the origin is found.
    pub closed spec fn holds_video(&self) -> bool {
        self.pending_v is Some
    }

    /// Whether an audio packet is held aside while the origin is found.
    pub closed spec fn holds_audio(&self) -> bool {
        self.pending_a is Some
    }

    /// The file has a video stream.
    pub closed spec fn has_video(&self) -> bool {
        self.video
    }

    /// The file has an audio stream.
    pub closed spec fn has_audio(&self) -> bool {
        self.audio
    }

    /// The video packets taken and not yet written, in order.
    pub closed spec fn video_in_hand(&self) -> Seq<RecPacket> {
        held(self.pending_v) + held(self.prev_v)
    }

    /// The audio packets taken and not yet written.
    pub closed spec fn audio_in_hand(&self) -> Seq<RecPacket> {
        held(self.pending_a)
    }

    /// The video packet waiting for its successor, once the origin is known.
    pub closed spec fn last_video(&self) -> Option<RecPacket> {
        self.prev_v
    }

    /// Whether there is something to do with these queues: before the origin
    /// is known, each stream in the file must offer a packet, held or queued;
    /// after it, either one will do.
    pub open spec fn ready(&self, video_queued: bool, audio_queued: bool) -> bool {
        if !self.origin_known() {
            (!self.has_video() || video_queued || self.holds_video())
                && (!self.has_audio() || (self.has_audio() && audio_queued) || self.holds_audio())
        } else {
            video_queued || (self.has_audio() && audio_queued)
        }
    }

    /// A loop that has written nothing, for a file with these streams.
    pub fn new(video: bool, audio: bool) -> (lp: Self)
        ensures
            !lp.origin_known(),
            lp.has_video() == video,
            lp.has_audio() == audio,
            lp.video_in_hand() == Seq::<RecPacket>::empty(),
            lp.audio_in_hand() == Seq::<RecPacket>::empty(),
            !lp.holds_video(),
            !lp.holds_audio(),
    {
        let lp = PacketLoop { origin: AV_NOPTS, pending_v: None, pending_a: None, prev_v: None, video, audio };
        assert(lp.video_in_hand() =~= Seq::<RecPacket>::empty());
        lp
    }

    /// See `origin_known`.
    pub fn is_origin_known(&self) -> (b: bool)
        ensures
            b == self.origin_known(),
    {
        self.origin != AV_NOPTS
    }

    /// See `holds_video`.
    pub fn is_holding_video(&self) -> (b: bool)
        ensures
            b == self.holds_video(),
    {
        self.pending_v.is_some()
    }

    /// See `holds_audio`.
    pub fn is_holding_audio(&self) -> (b: bool)
        ensures
            b == self.holds_audio(),
    {
        self.pending_a.is_some()
    }

    /// See `has_audio`.
    pub fn audio_stream(&self) -> (b: bool)
        ensures
            b == self.has_audio(),
    {
        self.audio
    }

    /// See `ready`.
    pub fn is_ready(&self, video_queued: bool, audio_queued: bool) -> (b: bool)
        ensures
            b == self.ready(video_queued, audio_queued),
    {
        if self.origin == AV_NOPTS {
            (!self.video || video_queued || self.pending_v.is_some())
                && (!self.audio || (self.audio && audio_queued) || self.pending_a.is_some())
        } else {
            video_queued || (self.audio && audio_queued)
        }
    }

    /// One round of the loop, given what was taken off the queues.
    ///
    /// No packet offered is lost: every one that is not a config packet is
    /// either written this round or still in hand afterwards, in the order
    /// it came. Config packets after the first are dropped. Where the
    /// round's arithmetic would leave `i64` (see `can_step`), it is not
    /// taken.
    pub fn step(&mut self, vpkt: Option<RecPacket>, apkt: Option<RecPacket>, stopped: bool) -> (r: Round)
        requires
            old(self).step_fits(vpkt, apkt, stopped),
            !old(self).origin_known() ==> (old(self).holds_video() ==> vpkt is None),
            !old(self).origin_known() ==> (old(self).holds_audio() ==> apkt is None),
        ensures
            r.finished == (stopped && vpkt is None && apkt is None && !old(self).holds_video()
                && !old(self).holds_audio()),
            r.finished ==> *final(self) == *old(self) && r.writes@.len() == 0,
            // Nothing is lost, and nothing is reordered.
            old(self).video_in_hand() + offered(vpkt) == written(r.writes@, true) + final(self).video_in_hand(),
            old(self).audio_in_hand() + offered(apkt) == written(r.writes@, false) + final(self).audio_in_hand(),
            // The origin, once known, stays.
            old(self).origin_known() ==> final(self).origin_known() && final(self).origin() == old(self).origin(),
            // The origin is the earlier of the two streams' first timestamps.
            !old(self).origin_known() && final(self).origin_known() ==> earliest(
                final(self).origin(),
                old(self).video_in_hand() + offered(vpkt),
                old(self).audio_in_hand() + offered(apkt),
            ),
            // Nothing is written before the origin is known, and every
            // timestamp written is measured from it.
            r.writes@.len() > 0 ==> final(self).origin_known(),
            forall|i: int| 0 <= i < r.writes@.len() ==> (#[trigger] r.writes@[i]).pts == r.writes@[i].packet.pts - final(self).origin(),
            // Audio lasts nothing; a video packet lasts until the next one.
            forall|i: int| 0 <= i < r.writes@.len() && !(#[trigger] r.writes@[i]).video ==> r.writes@[i].duration == 0,
            forall|i: int| 0 <= i < r.writes@.len() && (#[trigger] r.writes@[i]).video ==> (final(self).last_video() matches Some(next) && r.writes@[i].duration == next.pts - r.writes@[i].packet.pts),
            final(self).has_video() == old(self).has_video(),
            final(self).has_audio() == old(self).has_audio(),
            // A stop settles the origin from whatever is held.
            stopped && !old(self).origin_known() && (old(self).holds_video() || old(self).holds_audio())
                ==> final(self).origin_known(),
            final(self).origin_known() ==> !final(self).holds_video() && !final(self).holds_audio(),
    {
        proof {
            use_type_invariant(&*self);
        }
        let ghost old_v = self.video_in_hand();
        let ghost old_a = self.audio_in_hand();
        let ghost off_v = offered(vpkt);
        let ghost off_a = offered(apkt);
        let mut cur = PacketLoop::new(self.video, self.audio);
        std::mem::swap(&mut cur, self);
        proof {
            use_type_invariant(&cur);
        }
        let PacketLoop { origin, pending_v, pending_a, prev_v, video, audio } = cur;
        let mut pending_v = pending_v;
        let mut pending_a = pending_a;
        let mut prev_v = prev_v;
        let mut writes: Vec<PacketWrite> = Vec::new();
        if stopped && vpkt.is_none() && apkt.is_none() && pending_v.is_none() && pending_a.is_none() {
            proof { lemma_written_empty(writes@); }
            *self = PacketLoop { origin, pending_v, pending_a, prev_v, video, audio };
            return Round { writes, finished: true };
        }
        let ghost fv = frame_pts(vpkt);
        let ghost fa = frame_pts(apkt);
        let mut vpkt = match vpkt {
            Some(p) => if p.pts == AV_NOPTS { None } else { Some(p) },
            None => None,
        };
        let mut apkt = match apkt {
            Some(p) => if p.pts == AV_NOPTS { None } else { Some(p) },
            None => None,
        };
        assert(frame_pts(vpkt) == fv && frame_pts(apkt) == fa);
        assert(held(vpkt) == off_v);
        assert(held(apkt) == off_a);

        let ghost was_known = origin != AV_NOPTS;
        let mut origin = origin;
        if origin == AV_NOPTS {
            if pending_v.is_none() {
                pending_v = vpkt;
                vpkt = None;
            }
            if pending_a.is_none() {
                pending_a = apkt;
                apkt = None;
            }
            assert(vpkt is None && apkt is None);
            let have_v = !video || pending_v.is_some();
            let have_a = !audio || pending_a.is_some();
            let found = match (&pending_v, &pending_a) {
                (Some(v), Some(a)) => if v.pts < a.pts { Some(v.pts) } else { Some(a.pts) },
                (Some(v), None) => Some(v.pts),
                (None, Some(a)) => Some(a.pts),
                (None, None) => None,
            };
            if ((!have_v || !have_a) && !stopped) || found.is_none() {
                proof { lemma_written_empty(writes@); }
                *self = PacketLoop { origin, pending_v, pending_a, prev_v, video, audio };
                assert(self.video_in_hand() =~= old_v + off_v);
                assert(self.audio_in_hand() =~= old_a + off_a);
                return Round { writes, finished: false };
            }
            origin = match found {
                Some(o) => o,
                None => origin,
            };
            proof {
                let vs = held(pending_v);
                let aus = held(pending_a);
                if pending_v is Some {
                    assert(vs[0] == pending_v->0);
                }
                if pending_a is Some {
                    assert(aus[0] == pending_a->0);
                }
                assert(earliest(origin, vs, aus));
                assert(vs =~= old_v + off_v);
                assert(aus =~= old_a + off_a);
                assert(earliest(origin, old_v + off_v, old_a + off_a));
            }
            assert(origin as int == first_origin(frame_pts(pending_v), frame_pts(pending_a)));
            vpkt = pending_v;
            apkt = pending_a;
            pending_v = None;
            pending_a = None;
            assert(held(vpkt) + held(prev_v) =~= old_v + off_v);
            assert(held(apkt) =~= old_a + off_a);
        } else {
            assert(old_v =~= held(prev_v));
        }
        assert(round_fits(origin as int, frame_pts(vpkt), frame_pts(apkt), frame_pts(prev_v)));
        let ghost mid_prev = prev_v;
        let ghost v_before = held(vpkt);
        assert(old_v + off_v =~= held(prev_v) + held(vpkt));
        assert(old_a + off_a =~= held(apkt));

        match vpkt {
            Some(v) => {
                let cur_pts = v.pts - origin;
                match prev_v {
                    Some(prev) => {
                        let pprev = prev.pts - origin;
                        writes.push(PacketWrite { video: true, packet: prev, pts: pprev, duration: cur_pts - pprev });
                        assert(writes@.drop_last() =~= Seq::<PacketWrite>::empty());
                        proof { lemma_written_empty(Seq::<PacketWrite>::empty()); }
                        assert(written(writes@, true) =~= seq![prev]);
                        assert(written(writes@, false) =~= Seq::<RecPacket>::empty());
                    },
                    None => {
                        proof { lemma_written_empty(writes@); }
                    },
                }
                prev_v = Some(v);
            },
            None => {
                proof { lemma_written_empty(writes@); }
            },
        }
        assert(held(mid_prev) + v_before =~= written(writes@, true) + held(prev_v));
        let ghost after_video = writes@;
        match apkt {
            Some(a) => {
                let apts = a.pts - origin;
                writes.push(PacketWrite { video: false, packet: a, pts: apts, duration: 0 });
                assert(writes@.drop_last() =~= after_video);
                assert(written(writes@, false) =~= written(after_video, false).push(a));
            },
            None => {},
        }
        assert(written(after_video, false) =~= Seq::<RecPacket>::empty());
        assert(!was_known ==> earliest(origin, old_v + off_v, old_a + off_a));
        *self = PacketLoop { origin, pending_v, pending_a, prev_v, video, audio };
        assert(self.video_in_hand() =~= held(self.prev_v));
        assert(self.audio_in_hand() =~= Seq::<RecPacket>::empty());
        Round { writes, finished: false }
    }

    /// The last video packet, written with a hundred milliseconds of
    /// duration once the loop is over, and taken out of the loop's hands.
    /// Its timestamp is measured from the origin, or from zero before a
    /// negative one, held to what an `i64` can hold.
    pub fn finish(&mut self) -> (w: Option<PacketWrite>)
        ensures
            match old(self).last_video() {
                Some(last) => w == Some(PacketWrite {
                    video: true,
                    packet: last,
                    pts: saturated(last.pts - (if old(self).origin() > 0 { old(self).origin() as int } else { 0 })),
                    duration: 100_000,
                }),
                None => w is None,
            },
            final(self).last_video() is None,
            final(self).origin_known() == old(self).origin_known(),
            final(self).origin() == old(self).origin(),
            final(self).holds_video() == old(self).holds_video(),
            final(self).holds_audio() == old(self).holds_audio(),
            final(self).has_video() == old(self).has_video(),
            final(self).has_audio() == old(self).has_audio(),
            final(self).audio_in_hand() == old(self).audio_in_hand(),
            !old(self).holds_video() ==> old(self).video_in_hand() == held(old(self).last_video())
                && final(self).video_in_hand() == Seq::<RecPacket>::empty(),
    {
        proof {
            use_type_invariant(&*self);
        }
        assert(held(None::<RecPacket>) + held(self.prev_v) =~= held(self.prev_v));
        let mut cur = PacketLoop::new(self.video, self.audio);
        std::mem::swap(&mut cur, self);
        proof {
            use_type_invariant(&cur);
        }
        let PacketLoop { origin, pending_v, pending_a, prev_v, video, audio } = cur;
        *self = PacketLoop { origin, pending_v, pending_a, prev_v: None, video, audio };
        assert(held(None::<RecPacket>) + held(None::<RecPacket>) =~= Seq::<RecPacket>::empty());
        match prev_v {
            Some(last) => {
                let base: i64 = if origin > 0 { origin } else { 0 };
                let d = last.pts as i128 - base as i128;
                let pts: i64 = if d > i64::MAX as i128 {
                    i64::MAX
                } else if d < i64::MIN as i128 {
                    i64::MIN
                } else {
                    d as i64
                };
                Some(PacketWrite { video: true, packet: last, pts, duration: 100_000 })
            },
            None => None,
        }
    }
}

/// See `round_fits`.
fn round_fits_exec(o: i64, v: Option<i64>, a: Option<i64>, prev: Option<i64>) -> (b: bool)
    ensures
        b == round_fits(o as int, v, a, prev),
{
    let lo = i64::MIN as i128;
    let hi = i64::MAX as i128;
    let v_ok = match v {
        Some(c) => {
            let cur = c as i128 - o as i128;
            lo <= cur && cur <= hi && match prev {
                Some(p) => {
                    let pp = p as i128 - o as i128;
                    lo <= pp && pp <= hi && lo <= cur - pp && cur - pp <= hi
                },
                None => true,
            }
        },
        None => true,
    };
    let a_ok = match a {
        Some(x) => {
            let d = x as i128 - o as i128;
            lo <= d && d <= hi
        },
        None => true,
    };
    v_ok && a_ok
}

/// Rounds compose: what two runs of writes put into a stream, one after the
/// other, is what the first put there followed by what the second did. With
/// `step`'s own accounting this carries "nothing is lost, nothing is
/// reordered" from one round to a whole recording.
pub proof fn writes_of_two_runs(a: Seq<PacketWrite>, b: Seq<PacketWrite>, video: bool)
    ensures
        written(a + b, video) == written(a, video) + written(b, video),
    decreases b.len(),
{
    if b.len() == 0 {
        assert(a + b =~= a);
        assert(written(a, video) + written(b, video) =~= written(a, video));
    } else {
        writes_of_two_runs(a, b.drop_last(), video);
        assert((a + b).drop_last() =~= a + b.drop_last());
        assert((a + b).last() == b.last());
        if b.last().video == video {
            assert(written(a, video) + written(b, video) =~= (written(a, video) + written(b.drop_last(), video)).push(b.last().packet));
        }
    }
}

/// A whole recording keeps every packet of a stream, in order: over any run
/// of rounds, each of which kept its own account as `step` promises, what
/// was in hand at the start and everything offered since are what was
/// written over the run, followed by what is in hand at the end.
pub proof fn a_recording_keeps_every_packet(
    in_hand: Seq<Seq<RecPacket>>,
    offers: Seq<Seq<RecPacket>>,
    rounds: Seq<Seq<PacketWrite>>,
    video: bool,
)
    requires
        offers.len() == rounds.len(),
        in_hand.len() == rounds.len() + 1,
        forall|i: int|
            0 <= i < rounds.len() ==> in_hand[i] + offers[i] == written(#[trigger] rounds[i], video) + in_hand[i + 1],
    ensures
        in_hand[0] + offers.flatten_alt() == written(rounds.flatten_alt(), video) + in_hand.last(),
    decreases rounds.len(),
{
    if rounds.len() == 0 {
        assert(in_hand[0] + offers.flatten_alt() =~= in_hand[0]);
        assert(written(rounds.flatten_alt(), video) + in_hand.last() =~= in_hand.last());
    } else {
        let n = rounds.len() - 1;
        let before = rounds.drop_last();
        a_recording_keeps_every_packet(in_hand.drop_last(), offers.drop_last(), before, video);
        assert(in_hand.drop_last()[0] == in_hand[0]);
        assert(in_hand.drop_last().last() == in_hand[n]);
        assert(in_hand[n] + offers[n] == written(rounds[n], video) + in_hand[n + 1]);
        writes_of_two_runs(before.flatten_alt(), rounds[n], video);
        let w0 = written(before.flatten_alt(), video);
        let w1 = written(rounds[n], video);
        assert(in_hand[0] + offers.drop_last().flatten_alt() == w0 + in_hand[n]);
        assert(in_hand[0] + offers.flatten_alt() =~= (in_hand[0] + offers.drop_last().flatten_alt()) + offers[n]);
        assert((w0 + in_hand[n]) + offers[n] =~= w0 + (in_hand[n] + offers[n]));
        assert(w0 + (w1 + in_hand[n + 1]) =~= (w0 + w1) + in_hand[n + 1]);
    }
}

impl Recorder {
    /// The timestamps of the frames the loop takes this round (`None` for
    /// none, or for a config packet).
    pub fn next_pts(&self, lp: &PacketLoop) -> (r: (Option<i64>, Option<i64>))
        ensures
            r == (frame_pts(taken(lp.pops_video(), self@.video)), frame_pts(taken(lp.pops_audio(), self@.audio))),
    {
        let origin_known = lp.is_origin_known();
        let v = if should_pop(origin_known, lp.is_holding_video()) && self.video_queue.len() > 0 {
            let pts = self.video_queue[0].pts;
            if pts == AV_NOPTS { None } else { Some(pts) }
        } else {
            None
        };
        let a = if lp.audio_stream() && should_pop(origin_known, lp.is_holding_audio()) && self.audio_queue.len() > 0 {
            let pts = self.audio_queue[0].pts;
            if pts == AV_NOPTS { None } else { Some(pts) }
        } else {
            None
        };
        (v, a)
    }

    /// What a stopped recorder still writes: round after round until the
    /// loop is over, then the last video packet. Nothing is lost or
    /// reordered: what is written, what the loop still holds and the frames
    /// left in the queues it takes from are, stream by stream, what it held
    /// and what was queued. All of it is written (`true`) unless a round's
    /// arithmetic would leave `i64`; then it stops before that round
    /// (`false`).
    #[verifier::rlimit(80)]
    #[verifier::spinoff_prover]
    pub fn write_out(&mut self, lp: &mut PacketLoop) -> (r: (Vec<PacketWrite>, bool))
        requires
            old(self)@.stopped,
        ensures
            written(r.0@, true) + final(lp).video_in_hand() + writable_of(final(self)@.video)
                == old(lp).video_in_hand() + writable_of(old(self)@.video),
            written(r.0@, false) + final(lp).audio_in_hand() + (if old(lp).has_audio() {
                writable_of(final(self)@.audio)
            } else {
                Seq::<RecPacket>::empty()
            }) == old(lp).audio_in_hand() + (if old(lp).has_audio() {
                writable_of(old(self)@.audio)
            } else {
                Seq::<RecPacket>::empty()
            }),
            final(self)@ == (RecorderModel { video: final(self)@.video, audio: final(self)@.audio, ..old(self)@ }),
            !old(lp).has_audio() ==> final(self)@.audio == old(self)@.audio,
            final(lp).has_video() == old(lp).has_video(),
            final(lp).has_audio() == old(lp).has_audio(),
            r.1 ==> final(self)@.video.len() == 0 && final(lp).video_in_hand() == Seq::<RecPacket>::empty()
                && final(lp).audio_in_hand() == Seq::<RecPacket>::empty()
                && (old(lp).has_audio() ==> final(self)@.audio.len() == 0),
            r.1 ==> written(r.0@, true) == old(lp).video_in_hand() + writable_of(old(self)@.video),
            r.1 ==> written(r.0@, false) == old(lp).audio_in_hand() + (if old(lp).has_audio() {
                writable_of(old(self)@.audio)
            } else {
                Seq::<RecPacket>::empty()
            }),
            !r.1 ==> !final(lp).step_fits(
                taken(final(lp).pops_video(), final(self)@.video),
                taken(final(lp).pops_audio(), final(self)@.audio),
                true,
            ),
    {
        let has_audio = lp.audio_stream();
        let mut writes: Vec<PacketWrite> = Vec::new();
        let ghost start = *self;
        let ghost v0 = lp.video_in_hand() + writable_of(self@.video);
        let ghost a0 = lp.audio_in_hand() + (if has_audio { writable_of(self@.audio) } else { Seq::<RecPacket>::empty() });
        proof {
            lemma_written_empty(writes@);
            assert(written(writes@, true) + lp.video_in_hand() + writable_of(self@.video) =~= v0);
            assert(written(writes@, false) + lp.audio_in_hand() + (if has_audio { writable_of(self@.audio) } else { Seq::<RecPacket>::empty() }) =~= a0);
        }
        loop
            invariant
                self@.stopped,
                self@ == (RecorderModel { video: self@.video, audio: self@.audio, ..start@ }),
                start@ == old(self)@,
                lp.has_audio() == has_audio,
                has_audio == old(lp).has_audio(),
                lp.has_video() == old(lp).has_video(),
                v0 == old(lp).video_in_hand() + writable_of(old(self)@.video),
                a0 == old(lp).audio_in_hand() + (if has_audio { writable_of(old(self)@.audio) } else { Seq::<RecPacket>::empty() }),
                !has_audio ==> self@.audio == start@.audio,
                written(writes@, true) + lp.video_in_hand() + writable_of(self@.video) == v0,
                written(writes@, false) + lp.audio_in_hand() + (if has_audio {
                    writable_of(self@.audio)
                } else {
                    Seq::<RecPacket>::empty()
                }) == a0,
            ensures
                self@.video.len() == 0,
                has_audio ==> self@.audio.len() == 0,
                !lp.holds_video(),
                !lp.holds_audio(),
            decreases self@.video.len() + (if has_audio { self@.audio.len() } else { 0 }) + (if lp.origin_known() {
                0int
            } else {
                1int
            }),
        {
            proof {
                use_type_invariant(&*lp);
            }
            let (pv, pa) = self.next_pts(&*lp);
            if !lp.can_step(pv, pa, true) {
                return (writes, false);
            }
            let ghost q_v = self@.video;
            let ghost q_a = self@.audio;
            let ghost in_v = lp.video_in_hand();
            let ghost in_a = lp.audio_in_hand();
            let (v, a, stopped) = self.take_round(&*lp);
            assert(frame_pts(v) == pv && frame_pts(a) == pa);
            let mut round = lp.step(v, a, stopped);
            if round.finished {
                break;
            }
            proof {
                if q_v.len() > 0 && v is Some {
                    assert(q_v.subrange(1, q_v.len() as int) =~= q_v.drop_first());
                    assert(writable_of(q_v) == offered(v) + writable_of(self@.video));
                } else {
                    assert(self@.video == q_v);
                    assert(offered(v) =~= Seq::<RecPacket>::empty());
                    assert(writable_of(q_v) =~= offered(v) + writable_of(self@.video));
                }
                if has_audio && q_a.len() > 0 && a is Some {
                    assert(q_a.subrange(1, q_a.len() as int) =~= q_a.drop_first());
                    assert(writable_of(q_a) == offered(a) + writable_of(self@.audio));
                } else {
                    assert(offered(a) =~= Seq::<RecPacket>::empty());
                }
                writes_of_two_runs(writes@, round.writes@, true);
                writes_of_two_runs(writes@, round.writes@, false);
                let wv = written(writes@, true);
                let rv = written(round.writes@, true);
                assert(wv + in_v + writable_of(q_v) == v0);
                assert(in_v + offered(v) == rv + lp.video_in_hand());
                assert(wv + in_v + (offered(v) + writable_of(self@.video)) =~= wv + (in_v + offered(v)) + writable_of(self@.video));
                assert((wv + rv) + lp.video_in_hand() + writable_of(self@.video) =~= wv + (rv + lp.video_in_hand()) + writable_of(self@.video));
                let wa = written(writes@, false);
                let ra = written(round.writes@, false);
                let rest_a = if has_audio { writable_of(self@.audio) } else { Seq::<RecPacket>::empty() };
                let old_rest_a = if has_audio { writable_of(q_a) } else { Seq::<RecPacket>::empty() };
                assert(old_rest_a =~= offered(a) + rest_a);
                assert(in_a + offered(a) == ra + lp.audio_in_hand());
                assert(wa + in_a + (offered(a) + rest_a) =~= wa + (in_a + offered(a)) + rest_a);
                assert((wa + ra) + lp.audio_in_hand() + rest_a =~= wa + (ra + lp.audio_in_hand()) + rest_a);
            }
            writes.append(&mut round.writes);
        }
        let ghost before = writes@;
        let ghost in_v = lp.video_in_hand();
        let ghost prev = lp.last_video();
        let last = lp.finish();
        proof {
            assert(self@.video =~= Seq::<RecPacket>::empty());
            assert(writable_of(self@.video) =~= Seq::<RecPacket>::empty());
            if has_audio {
                assert(self@.audio =~= Seq::<RecPacket>::empty());
                assert(writable_of(self@.audio) =~= Seq::<RecPacket>::empty());
            }
            assert(in_v == held(prev));
        }
        match last {
            Some(x) => {
                writes.push(x);
                proof {
                    assert(writes@ =~= before + seq![x]);
                    writes_of_two_runs(before, seq![x], true);
                    writes_of_two_runs(before, seq![x], false);
                    assert(seq![x].drop_last() =~= Seq::<PacketWrite>::empty());
                    lemma_written_empty(Seq::<PacketWrite>::empty());
                }
            },
            None => {},
        }
        proof {
            assert(written(before, true) + held(prev) + Seq::<RecPacket>::empty() =~= v0);
            assert(written(writes@, true) =~= written(writes@, true) + lp.video_in_hand() + writable_of(self@.video));
        }
        (writes, true)
    }
}

/// How a recording ends. The trailer is attempted whatever the packets
/// met, so that a partial file can still be opened; then the first packet
/// the muxer refused is what is reported, and a failed trailer only when no
/// packet was refused.
pub fn recording_outcome<E>(refused: Option<E>, trailer: Result<(), E>) -> (r: Result<(), E>)
    ensures
        r == match refused {
            Some(e) => Err(e),
            None => trailer,
        },
{
    match refused {
        Some(e) => Err(e),
        None => trailer,
    }
}

proof fn lemma_written_empty(w: Seq<PacketWrite>)
    requires
        w.len() == 0,
    ensures
        written(w, true) == Seq::<RecPacket>::empty(),
        written(w, false) == Seq::<RecPacket>::empty(),
{
}

/// The timestamp a packet is written with once it has been through the
/// muxer's time base: never at or before the last one written to the same
/// stream, which the muxer would refuse.
pub fn monotonic_pts(out_pts: i64, last_pts: i64) -> (pts: i64)
    requires
        last_pts < i64::MAX,
    ensures
        pts == (if last_pts != AV_NOPTS && out_pts <= last_pts { last_pts + 1 } else { out_pts as int }),
{
    if last_pts != AV_NOPTS && out_pts <= last_pts {
        last_pts + 1
    } else {
        out_pts
    }
}

} // verus!
