use sx1262_mesh_rs::uart_proto::{cmd, crc8, resp, FrameBuf, FrameParser, MAX_PAYLOAD, SYNC};

fn feed_all(parser: &mut FrameParser, bytes: &[u8]) -> Vec<(u8, Vec<u8>)> {
    let mut out = Vec::new();
    for &b in bytes {
        if parser.feed(b) {
            let f = parser.frame();
            out.push((f.cmd, f.payload.to_vec()));
        }
    }
    out
}

#[test]
fn crc8_check_value() {
    // CRC-8/ITU check value.
    assert_eq!(crc8(b"123456789"), 0xA1);
    assert_eq!(crc8(&[]), 0x55);
}

#[test]
fn crc8_of_message_with_its_crc_is_always_the_same() {
    for text in ["", "m", "mesh", "a longer message"] {
        let mut m = text.as_bytes().to_vec();
        m.push(crc8(&m));
        assert_eq!(crc8(&m), 0xF9);
    }
}

#[test]
fn frame_layout() {
    let mut f = FrameBuf::new();
    assert_eq!(f.as_bytes(), &[] as &[u8]);
    f.build(resp::NAK, &[0x04]);
    let crc = crc8(&[0x82, 0x04]);
    assert_eq!(crc, 0xD5);
    assert_eq!(f.as_bytes(), &[SYNC, 1, 0, 0x82, 0x04, crc]);
}

#[test]
fn frame_comes_out_with_its_last_byte() {
    let mut f = FrameBuf::new();
    f.build(cmd::SEND_MSG, &[7, 1, 2, 3]);
    let bytes = f.as_bytes().to_vec();
    let mut p = FrameParser::new();
    for &b in &bytes[..bytes.len() - 1] {
        assert!(!p.feed(b));
    }
    assert!(p.feed(bytes[bytes.len() - 1]));
    let frame = p.frame();
    assert_eq!(frame.cmd, cmd::SEND_MSG);
    assert_eq!(frame.payload, &[7, 1, 2, 3]);
}

#[test]
fn stream_of_frames_with_noise_between() {
    let mut bytes = vec![0x00, 0x12];
    let mut f = FrameBuf::new();
    f.build(1, &[]);
    bytes.extend_from_slice(f.as_bytes());
    bytes.push(0x55);
    let big: Vec<u8> = (0..256).map(|i| i as u8).collect();
    f.build(2, &big);
    assert_eq!(f.as_bytes().len(), 261);
    bytes.extend_from_slice(f.as_bytes());
    let mut p = FrameParser::new();
    assert_eq!(feed_all(&mut p, &bytes), vec![(1, vec![]), (2, big)]);
}

#[test]
fn damaged_frame_is_dropped_and_the_next_one_heard() {
    let mut f = FrameBuf::new();
    f.build(0x11, b"hello");
    let good = f.as_bytes().to_vec();
    for at in 3..good.len() {
        let mut bad = good.clone();
        bad[at] ^= 0x20;
        bad.extend_from_slice(&good);
        let mut p = FrameParser::new();
        assert_eq!(feed_all(&mut p, &bad), vec![(0x11, b"hello".to_vec())]);
    }
}

#[test]
fn overlong_length_is_refused() {
    let mut p = FrameParser::new();
    // Length 257.
    assert_eq!(feed_all(&mut p, &[SYNC, 0x01, 0x01]), vec![]);
    let mut f = FrameBuf::new();
    f.build(3, &[9]);
    let next = f.as_bytes().to_vec();
    assert_eq!(feed_all(&mut p, &next), vec![(3, vec![9])]);
}

#[test]
fn long_payload_is_cut() {
    let long = vec![0xABu8; 300];
    let mut f = FrameBuf::new();
    f.build(4, &long);
    let mut p = FrameParser::new();
    let got = feed_all(&mut p, f.as_bytes());
    assert_eq!(got, vec![(4, vec![0xAB; MAX_PAYLOAD])]);
}
