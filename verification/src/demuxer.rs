//! Stream framing.
//!
//! Every item on the video and audio sockets is prefixed with a 12-byte
//! header, and the most significant bit of its first byte says which kind it
//! is.
//!
//! A session header (video stream only) carries the frame size: bytes 4..8
//! are the width and 8..12 the height, big-endian, and bit 0 of byte 3 says
//! the client asked for the size.
//!
//! A media header is a big-endian `u64` of flags and timestamp, then a
//! big-endian `u32` length, followed by that many bytes of packet data. Bit
//! 62 of the `u64` marks a config packet, bit 61 a key frame, and the low 61
//! bits are the timestamp.
//!
//! Reading from a socket is the caller's part: what is here turns the bytes
//! that were read into items, and says exactly which bytes are refused.

use vstd::prelude::*;
use crate::text::{decimal, decimal_string, hex_digits, hex_string};
use crate::text::append;
use crate::text::owned;

verus! {

/// Packet header size: 8 bytes PTS+flags + 4 bytes length.
pub const PACKET_HEADER_SIZE: usize = 12;

/// The largest a single packet may claim to be: sixty-four megabytes, which
/// is several seconds of the highest bit rate arriving as one packet.
pub const MAX_PACKET_BYTES: usize = 67108864;

/// The session flag, bit 63 of the media header's first word.
pub const PACKET_FLAG_SESSION: u64 = 0x8000_0000_0000_0000;
/// The config flag, bit 62.
pub const PACKET_FLAG_CONFIG: u64 = 0x4000_0000_0000_0000;
/// The key-frame flag, bit 61.
pub const PACKET_FLAG_KEY_FRAME: u64 = 0x2000_0000_0000_0000;

/// Codec IDs, the ASCII of their names.
pub const CODEC_ID_H264: u32 = 0x68323634;
pub const CODEC_ID_H265: u32 = 0x68323635;
pub const CODEC_ID_AV1: u32 = 0x00617631;
pub const CODEC_ID_VP8: u32 = 0x00767038;
pub const CODEC_ID_VP9: u32 = 0x00767039;
pub const CODEC_ID_OPUS: u32 = 0x6f707573;
pub const CODEC_ID_AAC: u32 = 0x00616163;
pub const CODEC_ID_FLAC: u32 = 0x666c6163;
pub const CODEC_ID_RAW: u32 = 0x00726177;

/// Codec type for the pipeline.
#[derive(Debug, Clone, Copy, PartialEq, Eq, Structural)]
pub enum CodecType {
    H264,
    H265,
    AV1,
    Vp8,
    Vp9,
    Opus,
    Aac,
    Flac,
    Raw,
}

/// A raw packet from the demuxer.
#[derive(Debug)]
pub struct DemuxPacket {
    pub data: Vec<u8>,
    /// `None` for config packets.
    pub pts: Option<i64>,
    pub is_key_frame: bool,
    pub is_config: bool,
}

/// The frame size the video stream switches to from here on.
#[derive(Debug, Clone, Copy, PartialEq, Eq, Structural)]
pub struct SessionMeta {
    pub width: u32,
    pub height: u32,
    pub client_resized: bool,
}

/// One item off a stream socket.
#[derive(Debug)]
pub enum StreamItem {
    Packet(DemuxPacket),
    Session(SessionMeta),
}

/// Initial video stream info.
#[derive(Debug, Clone, Copy, PartialEq, Eq, Structural)]
pub struct VideoInfo {
    pub codec: CodecType,
    pub width: u32,
    pub height: u32,
}

/// Initial audio stream info.
#[derive(Debug, Clone, Copy, PartialEq, Eq, Structural)]
pub struct AudioInfo {
    pub codec: CodecType,
}

/// A 12-byte header, told apart.
#[derive(Debug, Clone, Copy, PartialEq, Eq, Structural)]
pub enum Header {
    /// A session header.
    Session(SessionMeta),
    /// A media header: the flag word, and the number of data bytes that
    /// follow, already checked to be neither zero nor too large.
    Media { pts_flags: u64, len: usize },
}

/// Why a stream was refused.
#[derive(Debug, Clone, Copy, PartialEq, Eq, Structural)]
pub enum DemuxError {
    /// The device said the stream could not be configured (codec id 1).
    StreamConfiguration,
    /// A codec id nobody knows.
    UnknownCodec(u32),
    /// The video stream opened with a media packet rather than a session
    /// header.
    NotASessionHeader,
    /// A session header with a zero dimension.
    InvalidSessionSize(u32, u32),
    /// A media packet of no bytes.
    ZeroLength,
    /// A media packet claiming more than `MAX_PACKET_BYTES`.
    TooLarge(u32),
    /// The stream ended inside a packet's data.
    Truncated,
}

impl DemuxError {
    /// The message, as the panel and the log show it.
    pub open spec fn message_spec(self) -> Seq<char> {
        match self {
            DemuxError::StreamConfiguration => "Stream configuration error on device"@,
            DemuxError::UnknownCodec(id) => "Unknown codec ID: 0x"@ + hex_digits(id as nat, 8),
            DemuxError::NotASessionHeader =>
                "Expected a session header to open the video stream, got a media packet. Is the server older than 4.0?"@,
            DemuxError::InvalidSessionSize(w, h) =>
                "Invalid session video size: "@ + decimal(w as nat) + "x"@ + decimal(h as nat),
            DemuxError::ZeroLength => "Received packet with zero length"@,
            DemuxError::TooLarge(len) => "Packet claims "@ + decimal(len as nat) + " bytes, which is not a frame"@,
            DemuxError::Truncated => "Failed to read packet data"@,
        }
    }

    /// See `message_spec`.
    pub fn message(&self) -> (m: String)
        ensures
            m@ == self.message_spec(),
    {
        match self {
            DemuxError::StreamConfiguration => owned("Stream configuration error on device"),
            DemuxError::UnknownCodec(id) => {
                let mut s = owned("Unknown codec ID: 0x");
                let n = hex_string(*id, 8);
                append(&mut s, n.as_str());
                s
            },
            DemuxError::NotASessionHeader => owned(
                "Expected a session header to open the video stream, got a media packet. Is the server older than 4.0?",
            ),
            DemuxError::InvalidSessionSize(w, h) => {
                let mut s = owned("Invalid session video size: ");
                let a = decimal_string(*w as u64);
                append(&mut s, a.as_str());
                append(&mut s, "x");
                let b = decimal_string(*h as u64);
                append(&mut s, b.as_str());
                s
            },
            DemuxError::ZeroLength => owned("Received packet with zero length"),
            DemuxError::TooLarge(len) => {
                let mut s = owned("Packet claims ");
                let n = decimal_string(*len as u64);
                append(&mut s, n.as_str());
                append(&mut s, " bytes, which is not a frame");
                s
            },
            DemuxError::Truncated => owned("Failed to read packet data"),
        }
    }
}

// ---------------------------------------------------------------------------
// The wire format, as mathematics
// ---------------------------------------------------------------------------

/// The unsigned big-endian number in `s`.
pub open spec fn be_value(s: Seq<u8>) -> nat
    decreases s.len(),
{
    if s.len() == 0 {
        0
    } else {
        be_value(s.drop_last()) * 256 + s.last() as nat
    }
}

/// 256 to the power `n`.
pub open spec fn pow256(n: nat) -> nat
    decreases n,
{
    if n == 0 {
        1
    } else {
        256 * pow256((n - 1) as nat)
    }
}

/// The big-endian `u32` at `s[at..at + 4]`.
pub open spec fn be_u32_at(s: Seq<u8>, at: int) -> nat {
    be_value(s.subrange(at, at + 4))
}

/// The big-endian `u64` at `s[at..at + 8]`.
pub open spec fn be_u64_at(s: Seq<u8>, at: int) -> nat {
    be_value(s.subrange(at, at + 8))
}

/// Whether a 12-byte header is a session header.
pub open spec fn is_session_header_spec(h: Seq<u8>) -> bool {
    h[0] >= 0x80
}

/// The session a session header describes.
pub open spec fn session_of(h: Seq<u8>) -> SessionMeta {
    SessionMeta {
        width: be_u32_at(h, 4) as u32,
        height: be_u32_at(h, 8) as u32,
        client_resized: h[3] % 2 == 1,
    }
}

/// Bit `b` of `x`.
pub open spec fn bit(x: nat, b: nat) -> bool {
    (x / pow2(b)) % 2 == 1
}

/// 2 to the power `n`.
pub open spec fn pow2(n: nat) -> nat
    decreases n,
{
    if n == 0 {
        1
    } else {
        2 * pow2((n - 1) as nat)
    }
}

/// The packet that a media header's flag word and its data make.
pub open spec fn packet_fields(pts_flags: nat) -> (Option<i64>, bool, bool) {
    let is_config = bit(pts_flags, 62);
    let is_key_frame = bit(pts_flags, 61);
    let pts = if is_config { None } else { Some((pts_flags % pow2(61)) as i64) };
    (pts, is_key_frame, is_config)
}

/// What a header of 12 bytes is: a session, a media packet of an
/// acceptable length, or a refusal.
pub open spec fn header_spec(h: Seq<u8>) -> Result<Header, DemuxError> {
    if is_session_header_spec(h) {
        Ok(Header::Session(session_of(h)))
    } else {
        let len = be_u32_at(h, 8);
        if len == 0 {
            Err(DemuxError::ZeroLength)
        } else if len > MAX_PACKET_BYTES {
            Err(DemuxError::TooLarge(len as u32))
        } else {
            Ok(Header::Media { pts_flags: be_u64_at(h, 0) as u64, len: len as usize })
        }
    }
}

/// The codec a codec id names, `None` for a stream the device disabled.
pub open spec fn codec_spec(raw: u32) -> Result<Option<CodecType>, DemuxError> {
    if raw == 0 {
        Ok(None)
    } else if raw == 1 {
        Err(DemuxError::StreamConfiguration)
    } else if raw == CODEC_ID_H264 {
        Ok(Some(CodecType::H264))
    } else if raw == CODEC_ID_H265 {
        Ok(Some(CodecType::H265))
    } else if raw == CODEC_ID_AV1 {
        Ok(Some(CodecType::AV1))
    } else if raw == CODEC_ID_VP8 {
        Ok(Some(CodecType::Vp8))
    } else if raw == CODEC_ID_VP9 {
        Ok(Some(CodecType::Vp9))
    } else if raw == CODEC_ID_OPUS {
        Ok(Some(CodecType::Opus))
    } else if raw == CODEC_ID_AAC {
        Ok(Some(CodecType::Aac))
    } else if raw == CODEC_ID_FLAC {
        Ok(Some(CodecType::Flac))
    } else if raw == CODEC_ID_RAW {
        Ok(Some(CodecType::Raw))
    } else {
        Err(DemuxError::UnknownCodec(raw))
    }
}

// ---------------------------------------------------------------------------
// Decoding
// ---------------------------------------------------------------------------

proof fn lemma_be_value_push(s: Seq<u8>, b: u8)
    ensures
        be_value(s.push(b)) == be_value(s) * 256 + b as nat,
{
    assert(s.push(b).drop_last() =~= s);
}

/// The unsigned big-endian number in `bytes[at..at + n]`, for up to eight
/// bytes.
pub fn be_uint(bytes: &[u8], at: usize, n: usize) -> (v: u64)
    requires
        n <= 8,
        at + n <= bytes@.len(),
    ensures
        v as nat == be_value(bytes@.subrange(at as int, at + n)),
{
    let mut v: u64 = 0;
    let mut i: usize = 0;
    assert(bytes@.subrange(at as int, at as int) =~= Seq::<u8>::empty());
    while i < n
        invariant
            n <= 8,
            at + n <= bytes@.len(),
            at + n <= bytes.len(),
            i <= n,
            v as nat == be_value(bytes@.subrange(at as int, at + i)),
            (v as nat) < pow256(i as nat),
        decreases n - i,
    {
        let b = bytes[at + i];
        assert(bytes@.subrange(at as int, at + i + 1) =~= bytes@.subrange(at as int, at + i).push(b));
        proof {
            lemma_be_value_push(bytes@.subrange(at as int, at + i), b);
            lemma_pow256_le_8(i as nat);
        }
        assert(v * 256 + b < pow256(i as nat) * 256) by (nonlinear_arith)
            requires (v as nat) < pow256(i as nat), b < 256;
        assert(pow256((i + 1) as nat) == 256 * pow256(i as nat));
        v = v * 256 + b as u64;
        i = i + 1;
    }
    v
}

proof fn lemma_pow256_le_8(i: nat)
    requires
        i < 8,
    ensures
        pow256(i) * 256 <= u64::MAX + 1,
{
    reveal_with_fuel(pow256, 9);
    assert(pow256(8) == 0x1_0000_0000_0000_0000);
    if i < 8 {
        lemma_pow256_mono(i, 7);
    }
}

proof fn lemma_pow256_mono(i: nat, j: nat)
    requires
        i <= j,
    ensures
        pow256(i) <= pow256(j),
    decreases j,
{
    if i < j {
        lemma_pow256_mono(i, (j - 1) as nat);
    }
}

/// Read the codec id from the four bytes that open a stream.
pub fn read_codec_id(bytes: &[u8]) -> (r: Result<Option<CodecType>, DemuxError>)
    requires
        bytes@.len() == 4,
    ensures
        r == codec_spec(be_u32_at(bytes@, 0) as u32),
{
    let raw = be_uint(bytes, 0, 4) as u32;
    if raw == 0 {
        Ok(None)
    } else if raw == 1 {
        Err(DemuxError::StreamConfiguration)
    } else if raw == CODEC_ID_H264 {
        Ok(Some(CodecType::H264))
    } else if raw == CODEC_ID_H265 {
        Ok(Some(CodecType::H265))
    } else if raw == CODEC_ID_AV1 {
        Ok(Some(CodecType::AV1))
    } else if raw == CODEC_ID_VP8 {
        Ok(Some(CodecType::Vp8))
    } else if raw == CODEC_ID_VP9 {
        Ok(Some(CodecType::Vp9))
    } else if raw == CODEC_ID_OPUS {
        Ok(Some(CodecType::Opus))
    } else if raw == CODEC_ID_AAC {
        Ok(Some(CodecType::Aac))
    } else if raw == CODEC_ID_FLAC {
        Ok(Some(CodecType::Flac))
    } else if raw == CODEC_ID_RAW {
        Ok(Some(CodecType::Raw))
    } else {
        Err(DemuxError::UnknownCodec(raw))
    }
}

/// Is this 12-byte header a session header rather than a media packet?
pub fn is_session_header(header: &[u8]) -> (b: bool)
    requires
        header@.len() == PACKET_HEADER_SIZE,
    ensures
        b == is_session_header_spec(header@),
{
    header[0] >= 0x80
}

/// The session a session header describes.
pub fn parse_session_header(header: &[u8]) -> (m: SessionMeta)
    requires
        header@.len() == PACKET_HEADER_SIZE,
    ensures
        m == session_of(header@),
{
    SessionMeta {
        width: be_uint(header, 4, 4) as u32,
        height: be_uint(header, 8, 4) as u32,
        client_resized: header[3] % 2 == 1,
    }
}

/// Tell a 12-byte header apart, refusing a media packet of no bytes or of
/// more than `MAX_PACKET_BYTES`.
pub fn parse_header(header: &[u8]) -> (r: Result<Header, DemuxError>)
    requires
        header@.len() == PACKET_HEADER_SIZE,
    ensures
        r == header_spec(header@),
{
    if is_session_header(header) {
        return Ok(Header::Session(parse_session_header(header)));
    }
    let pts_flags = be_uint(header, 0, 8);
    let len = be_uint(header, 8, 4);
    if len == 0 {
        Err(DemuxError::ZeroLength)
    } else if len > MAX_PACKET_BYTES as u64 {
        Err(DemuxError::TooLarge(len as u32))
    } else {
        Ok(Header::Media { pts_flags, len: len as usize })
    }
}

proof fn lemma_pow2_values()
    ensures
        pow2(61) == 0x2000_0000_0000_0000,
        pow2(62) == 0x4000_0000_0000_0000,
{
    reveal_with_fuel(pow2, 63);
}

/// The packet a media header's flag word and its data make: a config packet
/// has no timestamp, and the timestamp is the low 61 bits.
pub fn packet_from(pts_flags: u64, data: Vec<u8>) -> (p: DemuxPacket)
    ensures
        p.data@ == data@,
        (p.pts, p.is_key_frame, p.is_config) == packet_fields(pts_flags as nat),
{
    proof {
        lemma_pow2_values();
    }
    let is_config = (pts_flags / PACKET_FLAG_CONFIG) % 2 == 1;
    let is_key_frame = (pts_flags / PACKET_FLAG_KEY_FRAME) % 2 == 1;
    let pts = if is_config { None } else { Some((pts_flags % PACKET_FLAG_KEY_FRAME) as i64) };
    DemuxPacket { data, pts, is_key_frame, is_config }
}

/// Read the video stream header: the codec id, then the first session
/// header, which must give a size with no zero in it.
pub fn read_video_header(codec_bytes: &[u8], header: &[u8]) -> (r: Result<Option<VideoInfo>, DemuxError>)
    requires
        codec_bytes@.len() == 4,
        header@.len() == PACKET_HEADER_SIZE,
    ensures
        r == (match codec_spec(be_u32_at(codec_bytes@, 0) as u32) {
            Err(e) => Err(e),
            Ok(None) => Ok(None),
            Ok(Some(codec)) => if !is_session_header_spec(header@) {
                Err(DemuxError::NotASessionHeader)
            } else if session_of(header@).width == 0 || session_of(header@).height == 0 {
                Err(DemuxError::InvalidSessionSize(session_of(header@).width, session_of(header@).height))
            } else {
                Ok(Some(VideoInfo {
                    codec,
                    width: session_of(header@).width,
                    height: session_of(header@).height,
                }))
            },
        }),
{
    let codec = match read_codec_id(codec_bytes) {
        Err(e) => return Err(e),
        Ok(None) => return Ok(None),
        Ok(Some(codec)) => codec,
    };
    if !is_session_header(header) {
        return Err(DemuxError::NotASessionHeader);
    }
    let session = parse_session_header(header);
    if session.width == 0 || session.height == 0 {
        return Err(DemuxError::InvalidSessionSize(session.width, session.height));
    }
    Ok(Some(VideoInfo { codec, width: session.width, height: session.height }))
}

/// Read the audio stream header, which is the codec alone.
pub fn read_audio_header(codec_bytes: &[u8]) -> (r: Result<Option<AudioInfo>, DemuxError>)
    requires
        codec_bytes@.len() == 4,
    ensures
        r == (match codec_spec(be_u32_at(codec_bytes@, 0) as u32) {
            Err(e) => Err(e),
            Ok(None) => Ok(None),
            Ok(Some(codec)) => Ok(Some(AudioInfo { codec })),
        }),
{
    match read_codec_id(codec_bytes) {
        Err(e) => Err(e),
        Ok(None) => Ok(None),
        Ok(Some(codec)) => Ok(Some(AudioInfo { codec })),
    }
}

/// What reading one item from a stream holding exactly `bytes` gives.
///
/// Fewer than twelve bytes is the end of the stream; a media packet whose
/// data the stream ends inside of is refused.
pub open spec fn stream_item_spec(bytes: Seq<u8>, r: Result<Option<StreamItem>, DemuxError>) -> bool {
    if bytes.len() < PACKET_HEADER_SIZE {
        r == Ok::<Option<StreamItem>, DemuxError>(None)
    } else {
        let h = bytes.subrange(0, PACKET_HEADER_SIZE as int);
        match header_spec(h) {
            Err(e) => r == Err::<Option<StreamItem>, DemuxError>(e),
            Ok(Header::Session(m)) => r == Ok::<Option<StreamItem>, DemuxError>(Some(StreamItem::Session(m))),
            Ok(Header::Media { pts_flags, len }) => if bytes.len() < PACKET_HEADER_SIZE + len {
                r == Err::<Option<StreamItem>, DemuxError>(DemuxError::Truncated)
            } else {
                match r {
                    Ok(Some(StreamItem::Packet(p))) => {
                        &&& p.data@ == bytes.subrange(PACKET_HEADER_SIZE as int, PACKET_HEADER_SIZE + len)
                        &&& (p.pts, p.is_key_frame, p.is_config) == packet_fields(pts_flags as nat)
                    },
                    _ => false,
                }
            },
        }
    }
}

/// Read one item from a stream whose remaining bytes are `bytes`.
///
/// `None` is the end of the stream.
pub fn read_stream_item(bytes: &[u8]) -> (r: Result<Option<StreamItem>, DemuxError>)
    ensures
        stream_item_spec(bytes@, r),
{
    if bytes.len() < PACKET_HEADER_SIZE {
        return Ok(None);
    }
    let header = slice_prefix(bytes, PACKET_HEADER_SIZE);
    match parse_header(&header) {
        Err(e) => Err(e),
        Ok(Header::Session(m)) => Ok(Some(StreamItem::Session(m))),
        Ok(Header::Media { pts_flags, len }) => {
            if bytes.len() - PACKET_HEADER_SIZE < len {
                return Err(DemuxError::Truncated);
            }
            let mut data: Vec<u8> = Vec::new();
            let mut i: usize = 0;
            while i < len
                invariant
                    PACKET_HEADER_SIZE + len <= bytes@.len(),
                    PACKET_HEADER_SIZE + len <= bytes.len(),
                    i <= len,
                    data@ == bytes@.subrange(PACKET_HEADER_SIZE as int, PACKET_HEADER_SIZE + i),
                decreases len - i,
            {
                data.push(bytes[PACKET_HEADER_SIZE + i]);
                assert(bytes@.subrange(PACKET_HEADER_SIZE as int, PACKET_HEADER_SIZE + i + 1)
                    =~= bytes@.subrange(PACKET_HEADER_SIZE as int, PACKET_HEADER_SIZE + i).push(bytes@[PACKET_HEADER_SIZE + i]));
                i = i + 1;
            }
            Ok(Some(StreamItem::Packet(packet_from(pts_flags, data))))
        },
    }
}

/// The first `n` bytes of `bytes`, copied.
fn slice_prefix(bytes: &[u8], n: usize) -> (v: Vec<u8>)
    requires
        n <= bytes@.len(),
    ensures
        v@ == bytes@.subrange(0, n as int),
{
    let mut v: Vec<u8> = Vec::new();
    let mut i: usize = 0;
    while i < n
        invariant
            n <= bytes@.len(),
            i <= n,
            v@ == bytes@.subrange(0, i as int),
        decreases n - i,
    {
        v.push(bytes[i]);
        assert(bytes@.subrange(0, i + 1) =~= bytes@.subrange(0, i as int).push(bytes@[i as int]));
        i = i + 1;
    }
    v
}

} // verus!
