use camstream::encoder::{
    boundary_chunk, encode_part, encode_session, part_header_chunk, stream_content_type,
};
use camstream::frame::{CaptureError, Encoding, Frame, IoError};
use camstream::session::StreamSession;

const BOUNDARY: &str = "\r\n--123456789000000000000987654321\r\n";

fn expected_header(n: usize) -> Vec<u8> {
    format!("Content-Type: image/jpeg\r\nContent-Length: {}\r\n\r\n", n).into_bytes()
}

fn expected_part(payload: &[u8]) -> Vec<u8> {
    let mut out = BOUNDARY.as_bytes().to_vec();
    out.extend_from_slice(&expected_header(payload.len()));
    out.extend_from_slice(payload);
    out
}

#[test]
fn boundary_chunk_is_fixed_marker() {
    assert_eq!(boundary_chunk(), BOUNDARY.as_bytes().to_vec());
}

#[test]
fn content_type_names_boundary() {
    assert_eq!(
        stream_content_type(),
        "multipart/x-mixed-replace;boundary=123456789000000000000987654321".to_string()
    );
}

#[test]
fn header_length_matches_payload_zero_one_max() {
    assert_eq!(part_header_chunk(0), expected_header(0));
    assert_eq!(part_header_chunk(1), expected_header(1));
    // The largest buffer the hardware could ever report.
    assert_eq!(part_header_chunk(usize::MAX), expected_header(usize::MAX));
}

#[test]
fn header_renders_exact_decimal() {
    assert_eq!(part_header_chunk(1200), expected_header(1200));
    assert_eq!(
        String::from_utf8(part_header_chunk(1200)).unwrap(),
        "Content-Type: image/jpeg\r\nContent-Length: 1200\r\n\r\n"
    );
}

#[test]
fn encode_part_is_boundary_header_payload() {
    let payload = vec![0x11u8, 0x22, 0x33];
    assert_eq!(encode_part(&payload), expected_part(&payload));
}

#[test]
fn session_stream_is_three_concatenated_parts() {
    let sizes = [1200usize, 1800, 1500];
    let frames: Vec<Frame> = sizes
        .iter()
        .map(|&n| Frame::new(vec![0xABu8; n]))
        .collect();
    let out = encode_session(&frames);

    let mut expected = Vec::new();
    for &n in sizes.iter() {
        expected.extend_from_slice(&expected_part(&vec![0xABu8; n]));
    }
    assert_eq!(out, expected);

    // Each part is preceded by the fixed boundary and carries its own size.
    let text_prefixes: Vec<String> = sizes
        .iter()
        .map(|n| format!("{}Content-Type: image/jpeg\r\nContent-Length: {}\r\n\r\n", BOUNDARY, n))
        .collect();
    let mut offset = 0usize;
    for (i, &n) in sizes.iter().enumerate() {
        let prefix = text_prefixes[i].as_bytes();
        assert_eq!(&out[offset..offset + prefix.len()], prefix);
        offset += prefix.len() + n;
    }
    assert_eq!(offset, out.len());
}

#[test]
fn capture_release_balanced_after_injected_write_failure() {
    let mut s = StreamSession::new();
    // Three successful emits...
    for n in [1200usize, 1800, 1500] {
        assert!(s.is_live());
        let (boundary, header) = s.begin_frame(n);
        assert_eq!(boundary, BOUNDARY.as_bytes().to_vec());
        assert_eq!(header, expected_header(n));
        assert_eq!(s.outstanding(), 1);
        s.finish_frame(true);
        assert_eq!(s.outstanding(), 0);
    }
    // ...then a write failure on the fourth: the buffer is still released
    // and the session ends with nothing outstanding.
    let _ = s.begin_frame(640);
    s.finish_frame(false);
    assert!(!s.is_live());
    assert_eq!(s.outstanding(), 0);
    assert_eq!(s.frames_captured(), 4);
}

#[test]
fn capture_failure_ends_session_with_nothing_outstanding() {
    let mut s = StreamSession::new();
    let (_, _) = s.begin_frame(100);
    s.finish_frame(true);
    s.capture_failed();
    assert!(!s.is_live());
    assert_eq!(s.outstanding(), 0);
    assert_eq!(s.frames_captured(), 1);
}

#[test]
fn frame_wraps_bytes_as_jpeg() {
    let f = Frame::new(vec![1u8, 2, 3, 4]);
    assert_eq!(f.len(), 4);
    assert_eq!(f.encoding, Encoding::Jpeg);
    assert_eq!(f.data, vec![1u8, 2, 3, 4]);
}

#[test]
fn error_taxonomy_is_distinguishable() {
    assert_ne!(CaptureError::HardwareBusy, CaptureError::HardwareFault);
    assert_ne!(IoError::WriteFailed, IoError::ConnectionClosed);
}
