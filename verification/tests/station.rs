use sx1262_mesh_rs::basestation::{Basestation, BsStep};
use sx1262_mesh_rs::ota::{compute_crc32, PAGE_SIZE};
use sx1262_mesh_rs::uart_proto::{cmd, err, ota_state, resp, FrameBuf, FrameParser};

fn decode(f: &FrameBuf) -> (u8, Vec<u8>) {
    let mut p = FrameParser::new();
    let bytes = f.as_bytes();
    for (i, &b) in bytes.iter().enumerate() {
        let done = p.feed(b);
        assert_eq!(done, i == bytes.len() - 1);
    }
    let frame = p.frame();
    (frame.cmd, frame.payload.to_vec())
}

/// A base station with working flash and mesh.
struct Station {
    bs: Basestation,
    dfu: Vec<u8>,
    sent: Vec<(Option<u8>, Vec<u8>)>,
    mesh_ok: bool,
    flash_ok: bool,
}

impl Station {
    fn new() -> Station {
        Station {
            bs: Basestation::new(),
            dfu: vec![0x00; 57 * PAGE_SIZE],
            sent: Vec::new(),
            mesh_ok: true,
            flash_ok: true,
        }
    }

    fn command(&mut self, id: u8, payload: &[u8]) -> (u8, Vec<u8>) {
        let mut step = self.bs.handle_cmd(id, payload);
        loop {
            step = match step {
                BsStep::Reply(f) => return decode(&f),
                BsStep::WritePage { page_idx } => {
                    let at = (page_idx as usize - 64) * PAGE_SIZE;
                    if self.flash_ok {
                        self.dfu[at..at + PAGE_SIZE].copy_from_slice(self.bs.page_buf());
                    }
                    self.bs.page_written(self.flash_ok)
                }
                BsStep::ReadImage { size } => {
                    let image = self.dfu[..size as usize].to_vec();
                    self.bs.image_read(&image)
                }
                BsStep::Send { dest, data } => {
                    self.sent.push((Some(dest), data));
                    self.bs.sent(self.mesh_ok)
                }
                BsStep::Broadcast { data } => {
                    self.sent.push((None, data));
                    self.bs.sent(self.mesh_ok)
                }
            };
        }
    }
}

fn start(target: u8, size: u32, version: u16) -> Vec<u8> {
    let mut p = vec![target];
    p.extend_from_slice(&size.to_le_bytes());
    p.extend_from_slice(&version.to_le_bytes());
    p
}

fn image(len: usize) -> Vec<u8> {
    (0..len).map(|i| (i * 13 + i / 100) as u8).collect()
}

const ACK: (u8, Vec<u8>) = (resp::ACK, Vec::new());

fn nak(code: u8) -> (u8, Vec<u8>) {
    (resp::NAK, vec![code])
}

#[test]
fn upload_lands_in_flash_and_is_offered() {
    for len in [1usize, 255, 256, 2048, 2049, 6000] {
        let fw = image(len);
        let mut s = Station::new();
        assert_eq!(s.command(cmd::START_OTA, &start(7, len as u32, 3)), ACK);
        for part in fw.chunks(250) {
            assert_eq!(s.command(cmd::FW_DATA, part), ACK);
        }
        assert_eq!(&s.dfu[..len], &fw[..]);
        assert_eq!(s.command(cmd::BEGIN_TRANSFER, &[]), ACK);
        let (to, m) = s.bs.next_ota_message(&s.dfu).unwrap();
        assert_eq!(to, 7);
        let mut offer = vec![0xF0];
        offer.extend_from_slice(&(len as u32).to_le_bytes());
        offer.extend_from_slice(&(((len + 26) / 27) as u16).to_le_bytes());
        offer.extend_from_slice(&compute_crc32(&fw).to_le_bytes());
        offer.extend_from_slice(&[3, 0]);
        assert_eq!(&m.data[..m.len], &offer[..]);
    }
}

#[test]
fn commands_out_of_turn() {
    let mut s = Station::new();
    assert_eq!(s.command(cmd::FW_DATA, &[1]), nak(err::INVALID_STATE));
    assert_eq!(s.command(cmd::BEGIN_TRANSFER, &[]), nak(err::INVALID_STATE));
    assert_eq!(s.command(cmd::START_OTA, &[1, 2, 3]), nak(err::BAD_FRAME));
    assert_eq!(s.command(cmd::START_OTA, &start(1, 0, 1)), nak(err::BAD_SIZE));
    assert_eq!(s.command(cmd::START_OTA, &start(1, 114_689, 1)), nak(err::BAD_SIZE));
    assert_eq!(s.command(cmd::START_OTA, &start(1, 114_688, 1)), ACK);
    assert_eq!(s.command(cmd::START_OTA, &start(1, 10, 1)), nak(err::INVALID_STATE));
    assert_eq!(s.command(cmd::FW_DATA, &[]), nak(err::BAD_FRAME));
    assert_eq!(s.command(cmd::BEGIN_TRANSFER, &[]), nak(err::NO_FW_DATA));
    assert_eq!(s.command(0x77, &[1, 2]), nak(err::BAD_FRAME));
    assert_eq!(s.command(cmd::ABORT_OTA, &[]), ACK);
    assert_eq!(s.command(cmd::START_OTA, &start(1, 10, 1)), ACK);
}

#[test]
fn flash_error_ends_the_upload() {
    let mut s = Station::new();
    s.flash_ok = false;
    assert_eq!(s.command(cmd::START_OTA, &start(1, 4000, 1)), ACK);
    for _ in 0..8 {
        // 8 * 250 bytes stay within the first page.
        assert_eq!(s.command(cmd::FW_DATA, &[5; 250]), ACK);
    }
    assert_eq!(s.command(cmd::FW_DATA, &[5; 250]), nak(err::FLASH_ERROR));
    assert_eq!(s.command(cmd::FW_DATA, &[5; 250]), nak(err::INVALID_STATE));
}

#[test]
fn relay_to_the_mesh() {
    let mut s = Station::new();
    assert_eq!(s.command(cmd::SEND_MSG, &[9]), nak(err::BAD_FRAME));
    assert_eq!(s.command(cmd::SEND_MSG, &[9, 1, 2]), ACK);
    assert_eq!(s.command(cmd::SEND_BROADCAST, &[]), nak(err::BAD_FRAME));
    assert_eq!(s.command(cmd::SEND_BROADCAST, &[3]), ACK);
    assert_eq!(s.sent, vec![(Some(9), vec![1, 2]), (None, vec![3])]);
    s.mesh_ok = false;
    assert_eq!(s.command(cmd::SEND_MSG, &[9, 1]), nak(err::INVALID_STATE));
    assert_eq!(s.command(cmd::SEND_BROADCAST, &[1]), nak(err::INVALID_STATE));
}

#[test]
fn relay_to_the_host() {
    let mut s = Station::new();
    let f = s.bs.mesh_message(4, -95, b"hi").unwrap();
    assert_eq!(decode(&f), (resp::RECV_MSG, vec![4, 0xA1, 0xFF, b'h', b'i']));
    assert!(s.bs.mesh_message(4, 0, &[1; 253]).is_some());
    assert!(s.bs.mesh_message(4, 0, &[1; 254]).is_none());
    // OTA traffic without a sender goes nowhere.
    assert!(s.bs.mesh_message(4, 0, &[0xF1]).is_none());
}

#[test]
fn progress_reports() {
    let mut s = Station::new();
    let idle = (resp::PROGRESS, vec![ota_state::IDLE, 0, 0, 0, 0, 0]);
    assert_eq!(s.command(cmd::QUERY_STATUS, &[]), idle);
    s.command(cmd::START_OTA, &start(2, 1000, 5));
    s.command(cmd::FW_DATA, &[1; 250]);
    assert_eq!(
        s.command(cmd::QUERY_STATUS, &[]),
        (resp::PROGRESS, vec![ota_state::RECEIVING_FW, 25, 0, 0, 0, 0])
    );
    for _ in 0..3 {
        s.command(cmd::FW_DATA, &[1; 250]);
    }
    s.command(cmd::BEGIN_TRANSFER, &[]);
    s.bs.next_ota_message(&s.dfu.clone());
    assert!(s.bs.mesh_message(2, 0, &[0xF1]).is_none());
    assert!(s.bs.mesh_message(2, 0, &[0xF4, 18, 0, 19, 0]).is_none());
    assert_eq!(
        s.command(cmd::QUERY_STATUS, &[]),
        (resp::PROGRESS, vec![ota_state::TRANSFERRING, 50, 19, 0, 38, 0])
    );
    let done = s.bs.mesh_message(2, 0, &[0xF5, 3]).unwrap();
    assert_eq!(decode(&done), (resp::OTA_DONE, vec![3]));
    assert_eq!(s.command(cmd::QUERY_STATUS, &[]), idle);
}

#[test]
fn success_is_reported_as_zero() {
    let mut s = Station::new();
    s.command(cmd::START_OTA, &start(2, 1, 5));
    s.command(cmd::FW_DATA, &[1]);
    s.command(cmd::BEGIN_TRANSFER, &[]);
    let done = s.bs.mesh_message(2, 0, &[0xF6, 0, 0, 0, 0]).unwrap();
    assert_eq!(decode(&done), (resp::OTA_DONE, vec![0]));
    assert!(s.bs.next_ota_message(&s.dfu.clone()).is_none());
}

#[test]
fn progress_timer() {
    let s = Station::new();
    let mut next = 500;
    assert!(s.bs.poll_progress(499, &mut next).is_none());
    assert_eq!(next, 500);
    assert!(s.bs.poll_progress(510, &mut next).is_some());
    assert_eq!(next, 1010);
    assert_eq!(decode(&s.bs.progress_frame()).0, resp::PROGRESS);
}

#[test]
fn uploading_too_much_keeps_counting() {
    let mut s = Station::new();
    s.command(cmd::START_OTA, &start(2, 100, 5));
    s.command(cmd::FW_DATA, &[1; 250]);
    assert_eq!(
        s.command(cmd::QUERY_STATUS, &[]).1,
        vec![ota_state::RECEIVING_FW, 250, 0, 0, 0, 0]
    );
}
