use sx1262_mesh_rs::crc;
use sx1262_mesh_rs::ota::{compute_crc32, OtaReceiver, OtaResponse, OtaStep, PAGE_SIZE};
use sx1262_mesh_rs::ota_protocol::{
    is_ota_message, msg, reason, serialize_abort, serialize_accept, serialize_complete,
    serialize_reject, OtaChunk, OtaChunkAck, OtaOffer, CHUNK_DATA_SIZE,
};
use sx1262_mesh_rs::ota_sender::{OtaResult, OtaSender, RETRANSMIT_TIMEOUT};

fn image(len: usize) -> Vec<u8> {
    (0..len).map(|i| (i * 7 + i / 256) as u8).collect()
}

/// A target node with working flash.
struct Target {
    rx: OtaReceiver,
    flash: Vec<u8>,
    pages: Vec<u8>,
    swapped: bool,
}

impl Target {
    fn new(version: u16) -> Target {
        Target {
            rx: OtaReceiver::new(version),
            flash: vec![0xEE; 128 * PAGE_SIZE],
            pages: Vec::new(),
            swapped: false,
        }
    }

    fn deliver(&mut self, m: &[u8], now: u32) -> Option<Vec<u8>> {
        let mut step = self.rx.handle_message(m, now);
        loop {
            step = match step {
                OtaStep::Reply(r) => return r.map(|r| bytes_of(&r)),
                OtaStep::Finish { response, swap } => {
                    self.swapped = swap;
                    return Some(bytes_of(&response));
                }
                OtaStep::WritePage { page_idx } => {
                    let at = page_idx as usize * PAGE_SIZE;
                    self.flash[at..at + PAGE_SIZE].copy_from_slice(self.rx.page_buf());
                    self.pages.push(page_idx);
                    self.rx.page_written(true)
                }
                OtaStep::Verify { size } => {
                    let at = 64 * PAGE_SIZE;
                    let image = self.flash[at..at + size as usize].to_vec();
                    self.rx.image_read(&image)
                }
            };
        }
    }
}

fn bytes_of(r: &OtaResponse) -> Vec<u8> {
    r.data[..r.len].to_vec()
}

fn offer(size: u32, chunks: u16, crc32: u32, version: u16) -> Vec<u8> {
    let mut buf = [0u8; 32];
    let o = OtaOffer { firmware_size: size, total_chunks: chunks, crc32, version };
    let n = o.serialize(&mut buf);
    buf[..n].to_vec()
}

fn chunk(index: u16, data: &[u8]) -> Vec<u8> {
    let mut c = OtaChunk { index, data: [0; CHUNK_DATA_SIZE], data_len: data.len() as u8 };
    c.data[..data.len()].copy_from_slice(data);
    let mut buf = [0u8; 32];
    let n = c.serialize(&mut buf);
    buf[..n].to_vec()
}

#[test]
fn crc32_check_value() {
    assert_eq!(compute_crc32(b"123456789"), 0xCBF4_3926);
    assert_eq!(compute_crc32(&[]), 0);
    assert_eq!(crc::crc16_run(0xA001, 0xFFFF, b"123456789"), 0x4B37);
    assert_eq!(crc::crc8_run(0x31, 0xFF, b"123456789"), 0xF7);
}

#[test]
fn crc32_tells_single_byte_changes() {
    let a = image(300);
    let c = compute_crc32(&a);
    for i in 0..a.len() {
        let mut b = a.clone();
        b[i] ^= 0x10;
        assert_ne!(compute_crc32(&b), c);
    }
}

#[test]
fn offer_wire_format() {
    let m = offer(0x0001_0203, 0x0405, 0xAABB_CCDD, 0x0607);
    assert_eq!(
        m,
        vec![0xF0, 0x03, 0x02, 0x01, 0x00, 0x05, 0x04, 0xDD, 0xCC, 0xBB, 0xAA, 0x07, 0x06]
    );
    let back = OtaOffer::deserialize(&m[1..]).unwrap();
    assert_eq!(back.firmware_size, 0x0001_0203);
    assert_eq!(back.total_chunks, 0x0405);
    assert_eq!(back.crc32, 0xAABB_CCDD);
    assert_eq!(back.version, 0x0607);
    assert!(OtaOffer::deserialize(&m[1..12]).is_none());
}

#[test]
fn chunk_wire_format_with_padding() {
    let mut m = chunk(0x0102, &[0, 9, 0]);
    assert_eq!(m, vec![0xF3, 0x02, 0x01, 3, 0, 9, 0]);
    m.resize(32, 0);
    let back = OtaChunk::deserialize(&m[1..]).unwrap();
    assert_eq!(back.index, 0x0102);
    assert_eq!(back.data_len, 3);
    assert_eq!(&back.data[..3], &[0, 9, 0]);
    // Too short for its own length.
    assert!(OtaChunk::deserialize(&[1, 0, 5, 1, 2]).is_none());
    assert!(OtaChunk::deserialize(&[1, 0]).is_none());
    // A length beyond the capacity is held to it.
    let mut long = vec![1, 0, 200];
    long.extend_from_slice(&[7; 27]);
    assert_eq!(OtaChunk::deserialize(&long).unwrap().data_len, 27);
}

#[test]
fn short_messages_wire_format() {
    let mut buf = [0u8; 32];
    assert_eq!(serialize_accept(&mut buf), 1);
    assert_eq!(buf[0], 0xF1);
    assert_eq!(serialize_reject(&mut buf, 6), 2);
    assert_eq!(&buf[..2], &[0xF2, 6]);
    assert_eq!(serialize_abort(&mut buf, 3), 2);
    assert_eq!(&buf[..2], &[0xF5, 3]);
    assert_eq!(serialize_complete(&mut buf, 0x0102_0304), 5);
    assert_eq!(&buf[..5], &[0xF6, 4, 3, 2, 1]);
    let ack = OtaChunkAck { chunk_index: 1, next_needed: 0x0203 };
    assert_eq!(ack.serialize(&mut buf), 5);
    assert_eq!(&buf[..5], &[0xF4, 1, 0, 3, 2]);
}

#[test]
fn ota_message_range() {
    assert!(!is_ota_message(&[]));
    assert!(!is_ota_message(&[0xEF]));
    assert!(is_ota_message(&[0xF0]));
    assert!(is_ota_message(&[0xF6, 1]));
    assert!(!is_ota_message(&[0xF7]));
}

#[test]
fn whole_transfer_end_to_end() {
    for len in [1usize, 27, 28, 2048, 2049, 4096, 5000] {
        let fw = image(len);
        let mut dfu = fw.clone();
        dfu.resize(56 * PAGE_SIZE, 0xFF);
        let crc = OtaSender::compute_dfu_crc32(&dfu, len as u32);
        assert_eq!(crc, compute_crc32(&fw));
        let mut sender = OtaSender::new(len as u32, crc, 2);
        let mut target = Target::new(1);
        let mut exchanges = 0;
        while !sender.is_done() {
            let m = sender.next_message(&dfu).unwrap();
            let reply = target.deliver(&m.data[..m.len], 0).unwrap();
            sender.handle_message(&reply);
            exchanges += 1;
        }
        assert_eq!(exchanges, 1 + (len + 26) / 27);
        assert_eq!(sender.result(), Some(OtaResult::Success));
        assert!(target.swapped);
        assert!(!target.rx.is_active());
        assert_eq!(&target.flash[64 * PAGE_SIZE..64 * PAGE_SIZE + len], &fw[..]);
        let used = (len + PAGE_SIZE - 1) / PAGE_SIZE;
        let expected: Vec<u8> = (0..used as u8).map(|p| 64 + p).collect();
        assert_eq!(target.pages, expected);
        // The rest of the last page is as erased.
        let end = (64 + used) * PAGE_SIZE;
        assert!(target.flash[64 * PAGE_SIZE + len..end].iter().all(|&b| b == 0xFF));
    }
}

#[test]
fn lost_acknowledgement_is_made_good() {
    let fw = image(200);
    let mut dfu = fw.clone();
    dfu.resize(56 * PAGE_SIZE, 0xFF);
    let mut sender = OtaSender::new(200, compute_crc32(&fw), 9);
    let mut target = Target::new(1);
    let m = sender.next_message(&dfu).unwrap();
    let accept = target.deliver(&m.data[..m.len], 0).unwrap();
    assert_eq!(sender.handle_message(&accept), None);
    let first = sender.next_message(&dfu).unwrap();
    // The acknowledgement is lost.
    assert_eq!(
        target.deliver(&first.data[..first.len], 0).unwrap(),
        vec![msg::OTA_CHUNK_ACK, 0, 0, 1, 0]
    );
    for _ in 0..RETRANSMIT_TIMEOUT {
        assert!(sender.next_message(&dfu).is_none());
    }
    let again = sender.next_message(&dfu).unwrap();
    assert_eq!(&again.data[..again.len], &first.data[..first.len]);
    let ack = target.deliver(&again.data[..again.len], 0).unwrap();
    assert_eq!(ack, vec![msg::OTA_CHUNK_ACK, 0, 0, 1, 0]);
    sender.handle_message(&ack);
    assert_eq!(sender.progress(), Some((1, 8)));
    assert_eq!(target.rx.progress(), Some((1, 8)));
}

#[test]
fn out_of_order_chunk_asks_for_the_next_one() {
    let mut t = Target::new(1);
    t.deliver(&offer(100, 4, 0, 2), 0);
    assert_eq!(t.deliver(&chunk(2, &[1; 27]), 0).unwrap(), vec![0xF4, 2, 0, 0, 0]);
    assert_eq!(t.rx.progress(), Some((0, 4)));
}

#[test]
fn offers_are_refused_for_their_reasons() {
    let mut t = Target::new(5);
    assert_eq!(t.deliver(&offer(0, 0, 0, 9), 0).unwrap(), vec![0xF2, reason::NO_SPACE]);
    assert_eq!(t.deliver(&offer(114689, 4248, 0, 9), 0).unwrap(), vec![0xF2, reason::NO_SPACE]);
    assert_eq!(t.deliver(&offer(10, 1, 0, 5), 0).unwrap(), vec![0xF2, reason::BAD_VERSION]);
    assert_eq!(t.deliver(&offer(10, 1, 0, 4), 0).unwrap(), vec![0xF2, reason::BAD_VERSION]);
    assert!(!t.rx.is_active());
    assert_eq!(t.deliver(&offer(114688, 4248, 0, 6), 0).unwrap(), vec![0xF1]);
    assert_eq!(t.deliver(&offer(10, 1, 0, 6), 0).unwrap(), vec![0xF2, reason::BUSY]);
    // A malformed offer is not answered.
    let mut idle = Target::new(0);
    assert_eq!(idle.deliver(&[0xF0, 1, 2], 0), None);
    assert_eq!(idle.deliver(&[], 0), None);
}

#[test]
fn wrong_crc_aborts() {
    let mut t = Target::new(1);
    t.deliver(&offer(3, 1, 0x1234, 2), 0);
    assert_eq!(t.deliver(&chunk(0, &[1, 2, 3]), 0).unwrap(), vec![0xF5, reason::CRC_MISMATCH]);
    assert!(!t.swapped);
    assert!(!t.rx.is_active());
}

#[test]
fn flash_failure_aborts() {
    let mut rx = OtaReceiver::new(1);
    rx.handle_message(&offer(3, 1, 0, 2), 0);
    assert!(matches!(
        rx.handle_message(&chunk(0, &[1, 2, 3]), 0),
        OtaStep::WritePage { page_idx: 64 }
    ));
    match rx.page_written(false) {
        OtaStep::Reply(Some(r)) => assert_eq!(bytes_of(&r), vec![0xF5, reason::FLASH_ERROR]),
        _ => panic!("no abort"),
    }
    assert!(!rx.is_active());
}

#[test]
fn abort_frees_the_receiver() {
    let mut t = Target::new(1);
    t.deliver(&offer(100, 4, 0, 2), 0);
    assert!(t.rx.is_active());
    assert_eq!(t.deliver(&[0xF5, 0], 0), None);
    assert!(!t.rx.is_active());
    assert_eq!(t.rx.progress(), None);
}

#[test]
fn silence_expires_a_transfer() {
    let mut t = Target::new(1);
    t.deliver(&offer(100, 4, 0, 2), 1000);
    assert!(!t.rx.expire(60_999));
    // A duplicate or early chunk counts as a sign of life.
    t.deliver(&chunk(3, &[0; 27]), 50_000);
    assert!(!t.rx.expire(109_999));
    assert!(t.rx.is_active());
    assert!(t.rx.expire(110_000));
    assert!(!t.rx.is_active());
    assert!(!t.rx.expire(500_000));
    // Across the wrap of the clock.
    t.deliver(&offer(100, 4, 0, 2), u32::MAX - 9_999);
    assert!(!t.rx.expire(49_999));
    assert!(t.rx.expire(50_000));
}

#[test]
fn default_receiver_runs_version_one() {
    let mut rx = OtaReceiver::default();
    match rx.handle_message(&offer(10, 1, 0, 1), 0) {
        OtaStep::Reply(Some(r)) => assert_eq!(bytes_of(&r), vec![0xF2, reason::BAD_VERSION]),
        _ => panic!("no reject"),
    }
}

#[test]
fn sender_repeats_the_offer() {
    let dfu = image(100);
    let mut s = OtaSender::new(100, 7, 2);
    let first = s.next_message(&dfu).unwrap();
    assert_eq!(first.data[0], msg::OTA_OFFER);
    for _ in 0..RETRANSMIT_TIMEOUT {
        assert!(s.next_message(&dfu).is_none());
    }
    let again = s.next_message(&dfu).unwrap();
    assert_eq!(&again.data[..again.len], &first.data[..first.len]);
    assert_eq!(s.progress(), Some((0, 4)));
    assert_eq!(s.firmware_size(), 100);
}

#[test]
fn sender_ends_with_what_the_target_says() {
    let mut s = OtaSender::new(100, 7, 2);
    assert_eq!(s.handle_message(&[]), None);
    assert_eq!(s.handle_message(&[0x42]), None);
    assert_eq!(s.handle_message(&[0xF2, 6]), Some(OtaResult::Rejected(6)));
    assert_eq!(s.progress(), None);
    assert_eq!(s.result(), Some(OtaResult::Rejected(6)));
    let mut s = OtaSender::new(100, 7, 2);
    assert_eq!(s.handle_message(&[0xF2]), Some(OtaResult::Rejected(0)));
    let mut s = OtaSender::new(100, 7, 2);
    assert_eq!(s.handle_message(&[0xF5, 3]), Some(OtaResult::Aborted(3)));
    let mut s = OtaSender::new(100, 7, 2);
    assert_eq!(s.handle_message(&[0xF6]), Some(OtaResult::Success));
    assert!(s.next_message(&image(100)).is_none());
}

#[test]
fn sender_waits_after_the_last_chunk() {
    let dfu = image(30);
    let mut s = OtaSender::new(30, 7, 2);
    s.next_message(&dfu);
    s.handle_message(&[0xF1]);
    let c0 = s.next_message(&dfu).unwrap();
    assert_eq!(c0.len, 31);
    s.handle_message(&[0xF4, 0, 0, 1, 0]);
    let c1 = s.next_message(&dfu).unwrap();
    assert_eq!(&c1.data[..c1.len], &[0xF3, 1, 0, 3, dfu[27], dfu[28], dfu[29]]);
    s.handle_message(&[0xF4, 1, 0, 2, 0]);
    assert!(s.next_message(&dfu).is_none());
}
