use scrcpy_panel::demuxer::{
    read_audio_header, read_codec_id, read_stream_item, read_video_header, CodecType, DemuxError,
    StreamItem, PACKET_FLAG_CONFIG, PACKET_FLAG_KEY_FRAME,
};

fn read_one(bytes: &[u8]) -> StreamItem {
    read_stream_item(bytes)
        .expect("read failed")
        .expect("unexpected end of stream")
}

fn session_bytes(width: u32, height: u32, client_resized: bool) -> Vec<u8> {
    let flags: u32 = 0x8000_0000 | u32::from(client_resized);
    let mut bytes = flags.to_be_bytes().to_vec();
    bytes.extend_from_slice(&width.to_be_bytes());
    bytes.extend_from_slice(&height.to_be_bytes());
    bytes
}

fn packet_bytes(pts_flags: u64, payload: &[u8]) -> Vec<u8> {
    let mut bytes = pts_flags.to_be_bytes().to_vec();
    bytes.extend_from_slice(&(payload.len() as u32).to_be_bytes());
    bytes.extend_from_slice(payload);
    bytes
}

#[test]
fn a_packet_that_claims_more_than_a_frame_is_refused() {
    let mut wire = Vec::new();
    wire.extend_from_slice(&0u64.to_be_bytes());
    wire.extend_from_slice(&u32::MAX.to_be_bytes());
    let error = read_stream_item(wire.as_slice()).expect_err("it must be refused");
    assert!(
        error.message().contains("not a frame"),
        "refused for the wrong reason: {}",
        error.message()
    );
}

#[test]
fn a_packet_the_size_of_a_frame_still_reads() {
    let payload = vec![7u8; 4096];
    let mut wire = Vec::new();
    wire.extend_from_slice(&1234u64.to_be_bytes());
    wire.extend_from_slice(&(payload.len() as u32).to_be_bytes());
    wire.extend_from_slice(&payload);
    match read_stream_item(wire.as_slice()).expect("it reads") {
        Some(StreamItem::Packet(packet)) => {
            assert_eq!(packet.data.len(), payload.len());
            assert_eq!(packet.pts, Some(1234));
        }
        other => panic!("that is not a packet: {other:?}"),
    }
}

#[test]
fn reads_a_session_header() {
    match read_one(&session_bytes(1080, 2340, false)) {
        StreamItem::Session(session) => {
            assert_eq!((session.width, session.height), (1080, 2340));
            assert!(!session.client_resized);
        }
        other => panic!("expected a session header, got {other:?}"),
    }
}

#[test]
fn reads_the_client_resized_flag() {
    match read_one(&session_bytes(720, 1280, true)) {
        StreamItem::Session(session) => assert!(session.client_resized),
        other => panic!("expected a session header, got {other:?}"),
    }
}

#[test]
fn reads_a_key_frame_packet() {
    let bytes = packet_bytes(PACKET_FLAG_KEY_FRAME | 1234, &[1, 2, 3]);
    match read_one(&bytes) {
        StreamItem::Packet(packet) => {
            assert!(packet.is_key_frame);
            assert!(!packet.is_config);
            assert_eq!(packet.pts, Some(1234));
            assert_eq!(packet.data, vec![1, 2, 3]);
        }
        other => panic!("expected a packet, got {other:?}"),
    }
}

#[test]
fn reads_a_config_packet() {
    let bytes = packet_bytes(PACKET_FLAG_CONFIG, &[0xde, 0xad]);
    match read_one(&bytes) {
        StreamItem::Packet(packet) => {
            assert!(packet.is_config);
            assert!(!packet.is_key_frame);
            assert_eq!(packet.pts, None);
        }
        other => panic!("expected a packet, got {other:?}"),
    }
}

#[test]
fn a_scrcpy_3_config_packet_now_looks_like_a_session_header() {
    let legacy_config_flag = 1u64 << 63;
    let bytes = packet_bytes(legacy_config_flag, &[0xde, 0xad]);
    assert!(matches!(read_one(&bytes), StreamItem::Session(_)));
}

#[test]
fn reports_end_of_stream() {
    let empty: Vec<u8> = Vec::new();
    assert!(read_stream_item(empty.as_slice()).unwrap().is_none());
}

#[test]
fn rejects_a_zero_length_packet() {
    let bytes = packet_bytes(0, &[]);
    assert!(read_stream_item(bytes.as_slice()).is_err());
}

#[test]
fn a_zero_length_packet_is_said_to_be_one() {
    let bytes = packet_bytes(0, &[]);
    let error = read_stream_item(bytes.as_slice()).unwrap_err();
    assert_eq!(error, DemuxError::ZeroLength);
    assert_eq!(error.message(), "Received packet with zero length");
}

#[test]
fn a_packet_cut_short_is_truncated_not_the_end() {
    let mut bytes = packet_bytes(5, &[1, 2, 3, 4]);
    bytes.truncate(14);
    assert_eq!(read_stream_item(bytes.as_slice()).unwrap_err(), DemuxError::Truncated);
    // A header cut short is the end of the stream.
    assert!(read_stream_item(&bytes[..11]).unwrap().is_none());
}

#[test]
fn an_oversized_claim_names_its_size() {
    let mut wire = Vec::new();
    wire.extend_from_slice(&0u64.to_be_bytes());
    wire.extend_from_slice(&u32::MAX.to_be_bytes());
    let error = read_stream_item(wire.as_slice()).unwrap_err();
    assert_eq!(error, DemuxError::TooLarge(u32::MAX));
    assert_eq!(error.message(), "Packet claims 4294967295 bytes, which is not a frame");
}

#[test]
fn codec_ids_are_read_big_endian() {
    assert_eq!(read_codec_id(b"h264"), Ok(Some(CodecType::H264)));
    assert_eq!(read_codec_id(b"h265"), Ok(Some(CodecType::H265)));
    assert_eq!(read_codec_id(&[0, b'a', b'v', b'1']), Ok(Some(CodecType::AV1)));
    assert_eq!(read_codec_id(b"opus"), Ok(Some(CodecType::Opus)));
    assert_eq!(read_codec_id(b"flac"), Ok(Some(CodecType::Flac)));
    assert_eq!(read_codec_id(&[0, b'r', b'a', b'w']), Ok(Some(CodecType::Raw)));
    assert_eq!(read_codec_id(&[0, 0, 0, 0]), Ok(None));
    assert_eq!(read_codec_id(&[0, 0, 0, 1]), Err(DemuxError::StreamConfiguration));
    assert_eq!(read_codec_id(&[0, 0, 0, 2]), Err(DemuxError::UnknownCodec(2)));
    assert_eq!(DemuxError::UnknownCodec(2).message(), "Unknown codec ID: 0x00000002");
    assert_eq!(DemuxError::UnknownCodec(0xdead_beef).message(), "Unknown codec ID: 0xdeadbeef");
}

#[test]
fn the_video_header_is_a_codec_then_a_session() {
    let info = read_video_header(b"h264", &session_bytes(1080, 2400, false)).unwrap().unwrap();
    assert_eq!(info.codec, CodecType::H264);
    assert_eq!((info.width, info.height), (1080, 2400));

    let media = packet_bytes(1234, &[]);
    assert_eq!(read_video_header(b"h264", &media[..12]), Err(DemuxError::NotASessionHeader));
    assert_eq!(
        read_video_header(b"h265", &session_bytes(0, 2400, false)),
        Err(DemuxError::InvalidSessionSize(0, 2400))
    );
    assert_eq!(
        DemuxError::InvalidSessionSize(0, 2400).message(),
        "Invalid session video size: 0x2400"
    );
    assert_eq!(read_video_header(&[0, 0, 0, 0], &session_bytes(1, 1, false)), Ok(None));
}

#[test]
fn the_audio_header_is_a_codec() {
    assert_eq!(read_audio_header(b"opus").unwrap().unwrap().codec, CodecType::Opus);
    assert_eq!(read_audio_header(&[0, b'a', b'a', b'c']).unwrap().unwrap().codec, CodecType::Aac);
    assert_eq!(read_audio_header(&[0, 0, 0, 0]), Ok(None));
}
