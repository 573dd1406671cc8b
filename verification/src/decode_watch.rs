//! What the decoders keep between packets, apart from libavcodec's own
//! state: the codec a stream may be decoded with, the config data waiting for
//! the next picture, and how long a run of packets has come to nothing.

use vstd::prelude::*;
use crate::demuxer::CodecType;
use crate::text::{append, owned};

verus! {

/// How many packets in a row the video decoder may take without handing a
/// picture back before it is worth a line.
pub const ACCEPTED_WITHOUT_A_FRAME: u32 = 50;

/// How many packets in a row the audio decoder may refuse before it is
/// worth a line: a second of Opus.
pub const REFUSALS_WORTH_A_WORD: u32 = 50;

/// A codec's name as the log spells it.
pub open spec fn codec_name_spec(c: CodecType) -> Seq<char> {
    match c {
        CodecType::H264 => "H264"@,
        CodecType::H265 => "H265"@,
        CodecType::AV1 => "AV1"@,
        CodecType::Vp8 => "Vp8"@,
        CodecType::Vp9 => "Vp9"@,
        CodecType::Opus => "Opus"@,
        CodecType::Aac => "Aac"@,
        CodecType::Flac => "Flac"@,
        CodecType::Raw => "Raw"@,
    }
}

/// See `codec_name_spec`.
pub fn codec_name(c: CodecType) -> (r: &'static str)
    ensures
        r@ == codec_name_spec(c),
{
    match c {
        CodecType::H264 => "H264",
        CodecType::H265 => "H265",
        CodecType::AV1 => "AV1",
        CodecType::Vp8 => "Vp8",
        CodecType::Vp9 => "Vp9",
        CodecType::Opus => "Opus",
        CodecType::Aac => "Aac",
        CodecType::Flac => "Flac",
        CodecType::Raw => "Raw",
    }
}

/// The codecs the video decoder is built for.
pub open spec fn decodes_video(c: CodecType) -> bool {
    c == CodecType::H264 || c == CodecType::H265 || c == CodecType::AV1
}

/// The codecs the audio decoder is built for; raw is 16-bit PCM.
pub open spec fn decodes_audio(c: CodecType) -> bool {
    c == CodecType::Opus || c == CodecType::Aac || c == CodecType::Flac || c == CodecType::Raw
}

/// Whether a video decoder can be made for `c`, and why not.
pub fn video_codec_check(c: CodecType) -> (r: Result<(), String>)
    ensures
        r is Ok <==> decodes_video(c),
        r matches Err(m) ==> m@ == "Not a video codec: "@ + codec_name_spec(c),
{
    match c {
        CodecType::H264 | CodecType::H265 | CodecType::AV1 => Ok(()),
        other => {
            let mut m = owned("Not a video codec: ");
            append(&mut m, codec_name(other));
            Err(m)
        },
    }
}

/// Whether an audio decoder can be made for `c`, and why not.
pub fn audio_codec_check(c: CodecType) -> (r: Result<(), String>)
    ensures
        r is Ok <==> decodes_audio(c),
        r matches Err(m) ==> m@ == "Not an audio codec: "@ + codec_name_spec(c),
{
    match c {
        CodecType::Opus | CodecType::Aac | CodecType::Flac | CodecType::Raw => Ok(()),
        other => {
            let mut m = owned("Not an audio codec: ");
            append(&mut m, codec_name(other));
            Err(m)
        },
    }
}

/// One packet more that came to nothing: the run grows, stopping at the
/// largest count there is, and it is said out loud the first time it reaches
/// `limit`. The result is the new run, whether it has been said, and whether
/// it is to be said now.
pub open spec fn miss_step(run: nat, said: bool, limit: nat) -> (nat, bool, bool) {
    let next = if run + 1 <= u32::MAX { run + 1 } else { u32::MAX as nat };
    let speak = next >= limit && !said;
    (next, said || speak, speak)
}

/// A run of packets that came to nothing, and whether it has been said.
pub struct RunWatch {
    run: u32,
    said: bool,
}

impl RunWatch {
    /// How many packets in a row have come to nothing.
    pub closed spec fn run(&self) -> nat {
        self.run as nat
    }

    /// Whether this run has been said out loud.
    pub closed spec fn said(&self) -> bool {
        self.said
    }

    /// No run yet.
    pub fn new() -> (w: Self)
        ensures
            w.run() == 0,
            !w.said(),
    {
        RunWatch { run: 0, said: false }
    }

    /// A packet that came to something: the run is over, and the next one
    /// will be said again.
    pub fn reset(&mut self)
        ensures
            final(self).run() == 0,
            !final(self).said(),
    {
        self.run = 0;
        self.said = false;
    }

    /// One more packet that came to nothing; whether to say so now.
    pub fn miss(&mut self, limit: u32) -> (speak: bool)
        ensures
            (final(self).run(), final(self).said(), speak) == miss_step(old(self).run(), old(self).said(), limit as nat),
    {
        self.run = if self.run < u32::MAX { self.run + 1 } else { u32::MAX };
        let speak = self.run >= limit && !self.said;
        self.said = self.said || speak;
        speak
    }

    /// See `run`.
    pub fn run_length(&self) -> (n: u32)
        ensures
            n == self.run(),
    {
        self.run
    }
}

/// The run and whether it was said, after `n` misses from a fresh watch.
pub open spec fn after_misses(n: nat, limit: nat) -> (nat, bool)
    decreases n,
{
    if n == 0 {
        (0, false)
    } else {
        let (run, said) = after_misses((n - 1) as nat, limit);
        let (next, said_after, _) = miss_step(run, said, limit);
        (next, said_after)
    }
}

/// Whether the `n`th miss of a run, counting from one, is said out loud.
pub open spec fn speaks_on(n: nat, limit: nat) -> bool {
    let (run, said) = after_misses((n - 1) as nat, limit);
    miss_step(run, said, limit).2
}

/// A run of failures is said out loud exactly once: on the miss that
/// reaches the limit, or on the first one when the limit is zero.
pub proof fn a_run_is_said_once(n: nat, limit: nat)
    requires
        1 <= n <= u32::MAX,
    ensures
        speaks_on(n, limit) == (n == if limit == 0 { 1 } else { limit }),
        after_misses(n, limit) == (n, n >= limit),
    decreases n,
{
    assert(after_misses(0, limit) == (0nat, false));
    if n > 1 {
        a_run_is_said_once((n - 1) as nat, limit);
    }
    let (run, said) = after_misses((n - 1) as nat, limit);
    assert(run == n - 1);
    assert(after_misses(n, limit) == (miss_step(run, said, limit).0, miss_step(run, said, limit).1));
}

/// Config data waiting to go in front of the next picture.
pub struct ConfigMerge {
    pending: Vec<u8>,
}

impl ConfigMerge {
    /// The config bytes received since the last picture, in order.
    pub closed spec fn pending(&self) -> Seq<u8> {
        self.pending@
    }

    /// Nothing waiting.
    pub fn new() -> (m: Self)
        ensures
            m.pending() == Seq::<u8>::empty(),
    {
        ConfigMerge { pending: Vec::new() }
    }

    /// A packet from the stream: a config packet is kept, and `None` is
    /// returned; anything else is returned with everything kept in front of
    /// it, which is then forgotten.
    pub fn take(&mut self, is_config: bool, data: &[u8]) -> (r: Option<Vec<u8>>)
        ensures
            is_config ==> r is None && final(self).pending() == old(self).pending() + data@,
            !is_config ==> (r matches Some(v) && v@ == old(self).pending() + data@),
            !is_config ==> final(self).pending() == Seq::<u8>::empty(),
    {
        let ghost before = self.pending@;
        if is_config {
            let mut i: usize = 0;
            while i < data.len()
                invariant
                    i <= data@.len(),
                    self.pending@ == before + data@.subrange(0, i as int),
                decreases data.len() - i,
            {
                self.pending.push(data[i]);
                assert(before + data@.subrange(0, i + 1) =~= (before + data@.subrange(0, i as int)).push(data@[i as int]));
                i = i + 1;
            }
            assert(data@.subrange(0, data@.len() as int) =~= data@);
            None
        } else {
            let mut out: Vec<u8> = Vec::new();
            std::mem::swap(&mut out, &mut self.pending);
            let mut i: usize = 0;
            while i < data.len()
                invariant
                    i <= data@.len(),
                    out@ == before + data@.subrange(0, i as int),
                decreases data.len() - i,
            {
                out.push(data[i]);
                assert(before + data@.subrange(0, i + 1) =~= (before + data@.subrange(0, i as int)).push(data@[i as int]));
                i = i + 1;
            }
            assert(data@.subrange(0, data@.len() as int) =~= data@);
            Some(out)
        }
    }
}

} // verus!
