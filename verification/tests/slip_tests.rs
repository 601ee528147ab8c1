use flasher_stub::slip::Framer;
use flasher_stub::slip::FrameError;
use flasher_stub::slip::decode_frame;
use flasher_stub::slip::encode_frame;

#[test]
fn round_trip_plain_payload() {
    let payload: Vec<u8> = vec![0x00, 0x02, 0x10, 0x00, 0x7f, 0xfe];
    let framed = encode_frame(&payload);
    assert_eq!(framed.first(), Some(&0xc0));
    assert_eq!(framed.last(), Some(&0xc0));
    let body = &framed[1..framed.len() - 1];
    assert_eq!(decode_frame(body).unwrap(), payload);
}

#[test]
fn round_trip_with_delimiter_and_escape_bytes() {
    let payload: Vec<u8> = vec![0xc0, 0xdb, 0x01, 0xc0, 0xc0, 0xdb, 0xdc, 0xdd];
    let framed = encode_frame(&payload);
    let body = &framed[1..framed.len() - 1];
    assert_eq!(decode_frame(body).unwrap(), payload);
}

#[test]
fn escapes_are_exact() {
    let framed = encode_frame(&[0xc0]);
    assert_eq!(framed, vec![0xc0, 0xdb, 0xdc, 0xc0]);
    let framed = encode_frame(&[0xdb]);
    assert_eq!(framed, vec![0xc0, 0xdb, 0xdd, 0xc0]);
}

#[test]
fn no_raw_delimiter_inside_frame() {
    let mut payload: Vec<u8> = Vec::new();
    for i in 0..512 {
        payload.push((i % 256) as u8);
    }
    let framed = encode_frame(&payload);
    for i in 1..framed.len() - 1 {
        assert_ne!(framed[i], 0xc0);
    }
}

#[test]
fn empty_payload_round_trip() {
    let framed = encode_frame(&[]);
    assert_eq!(framed, vec![0xc0, 0xc0]);
    assert_eq!(decode_frame(&[]).unwrap(), Vec::<u8>::new());
}

#[test]
fn trailing_escape_is_rejected() {
    assert_eq!(decode_frame(&[0x01, 0xdb]), Err(FrameError::UnterminatedEscape));
}

#[test]
fn invalid_escape_is_rejected() {
    assert_eq!(decode_frame(&[0xdb, 0x07]), Err(FrameError::InvalidEscape));
}

#[test]
fn stray_delimiter_is_rejected() {
    assert_eq!(decode_frame(&[0x01, 0xc0, 0x02]), Err(FrameError::StrayDelimiter));
}

#[test]
fn framer_emits_frames_and_skips_garbage() {
    let mut f = Framer::new();
    let mut emitted: Vec<Vec<u8>> = Vec::new();
    let mut stream: Vec<u8> = vec![0x11, 0x22];
    stream.extend_from_slice(&encode_frame(&[1, 2, 3]));
    stream.extend_from_slice(&[0x33]);
    stream.extend_from_slice(&encode_frame(&[0xc0, 0xdb]));
    for b in stream {
        if let Some(frame) = f.feed(b) {
            emitted.push(frame);
        }
    }
    assert_eq!(emitted, vec![vec![1, 2, 3], vec![0xc0, 0xdb]]);
}

#[test]
fn framer_discards_malformed_frame_and_resynchronizes() {
    let mut f = Framer::new();
    let mut emitted: Vec<Vec<u8>> = Vec::new();
    // A frame with an invalid escape pair, then a good frame.
    let mut stream: Vec<u8> = vec![0xc0, 0x01, 0xdb, 0x09, 0x02, 0xc0];
    stream.extend_from_slice(&encode_frame(&[7, 8]));
    for b in stream {
        if let Some(frame) = f.feed(b) {
            emitted.push(frame);
        }
    }
    assert_eq!(emitted, vec![vec![7, 8]]);
}

#[test]
fn framer_reset_discards_partial_frame() {
    let mut f = Framer::new();
    for b in [0xc0u8, 0x01, 0x02] {
        assert!(f.feed(b).is_none());
    }
    f.reset();
    let mut emitted: Vec<Vec<u8>> = Vec::new();
    for b in encode_frame(&[9]) {
        if let Some(frame) = f.feed(b) {
            emitted.push(frame);
        }
    }
    // The partial bytes 0x01 0x02 left no residue.
    assert_eq!(emitted, vec![vec![9]]);
}

#[test]
fn framer_discards_overlong_frame() {
    let mut f = Framer::new();
    assert!(f.feed(0xc0).is_none());
    // Far more bytes than any frame may hold, without a closing delimiter.
    for _ in 0..0x4401 {
        assert!(f.feed(0x01).is_none());
    }
    // The overlong frame is gone; the next delimiter starts a fresh one.
    let mut emitted: Vec<Vec<u8>> = Vec::new();
    for b in encode_frame(&[5, 6]) {
        if let Some(frame) = f.feed(b) {
            emitted.push(frame);
        }
    }
    assert_eq!(emitted, vec![vec![5, 6]]);
}
