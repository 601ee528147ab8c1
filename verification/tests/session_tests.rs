use flasher_stub::checksum;
use flasher_stub::slip::Framer;
use flasher_stub::slip::encode_frame;
use flasher_stub::slip::poll_frame;
use flasher_stub::stub::Action;
use flasher_stub::stub::Stub;
use flasher_stub::targets::TargetParams;
use flasher_stub::transport::FatalError;
use flasher_stub::transport::RxQueue;

const OP_CHANGE_BAUDRATE: u8 = 0x0f;
const OP_FLASH_DEFL_BEGIN: u8 = 0x10;
const OP_FLASH_DEFL_DATA: u8 = 0x11;
const OP_FLASH_DEFL_END: u8 = 0x12;
const OP_ERASE_FLASH: u8 = 0xd0;
const OP_READ_FLASH: u8 = 0xd2;
const OP_RUN_USER_CODE: u8 = 0xd3;

fn packet(op: u8, value: u32, payload: &[u8]) -> Vec<u8> {
    let mut out = vec![0u8, op];
    out.extend_from_slice(&(payload.len() as u16).to_le_bytes());
    out.extend_from_slice(&value.to_le_bytes());
    out.extend_from_slice(payload);
    out
}

fn data_payload(seq: u32, data: &[u8]) -> Vec<u8> {
    let mut out = Vec::new();
    out.extend_from_slice(&(data.len() as u32).to_le_bytes());
    out.extend_from_slice(&seq.to_le_bytes());
    out.extend_from_slice(&0u32.to_le_bytes());
    out.extend_from_slice(&0u32.to_le_bytes());
    out.extend_from_slice(data);
    out
}

fn words(vals: &[u32]) -> Vec<u8> {
    let mut out = Vec::new();
    for v in vals {
        out.extend_from_slice(&v.to_le_bytes());
    }
    out
}

fn send(stub: &mut Stub, op: u8, value: u32, payload: &[u8]) -> (Vec<u8>, bool, u8, Action) {
    let (out, act) = stub.handle_frame(&packet(op, value, payload));
    let ok = out[out.len() - 2] == 0;
    let err = out[out.len() - 1];
    let data = out[8..out.len() - 2].to_vec();
    (data, ok, err, act)
}

fn new_stub() -> Stub {
    Stub::new(TargetParams::generic(), 64 * 1024)
}

#[test]
fn compressed_session_inflates_and_writes() {
    let mut stub = new_stub();
    let mut plain = Vec::new();
    for i in 0..4096u32 {
        plain.push((i * 7 % 251) as u8);
    }
    let compressed = miniz_oxide::deflate::compress_to_vec_zlib(&plain, 6);
    assert!(compressed.len() < plain.len());
    let o: u32 = 0x1000;
    let (_, ok, err, _) = send(&mut stub, OP_FLASH_DEFL_BEGIN, 0,
        &words(&[plain.len() as u32, 1, 0x4000, o]));
    assert!(ok, "begin failed: {:#x}", err);
    let chk = checksum(&compressed) as u32;
    let (_, ok, err, _) = send(&mut stub, OP_FLASH_DEFL_DATA, chk,
        &data_payload(0, &compressed));
    assert!(ok, "data failed: {:#x}", err);
    let (_, ok, _, act) = send(&mut stub, OP_FLASH_DEFL_END, 0, &words(&[1]));
    assert!(ok);
    assert_eq!(act, Action::Continue);
    let (data, ok, _, _) = send(&mut stub, OP_READ_FLASH, 0,
        &words(&[o, plain.len() as u32, 4096, 1]));
    assert!(ok);
    assert_eq!(data, plain);
}

#[test]
fn compressed_session_split_across_blocks() {
    let mut stub = new_stub();
    let plain = vec![0xa5u8; 8192];
    let compressed = miniz_oxide::deflate::compress_to_vec_zlib(&plain, 6);
    let (_, ok, _, _) = send(&mut stub, OP_FLASH_DEFL_BEGIN, 0,
        &words(&[plain.len() as u32, 2, 0x4000, 0]));
    assert!(ok);
    let mid = compressed.len() / 2;
    for (i, part) in [&compressed[..mid], &compressed[mid..]].iter().enumerate() {
        let chk = checksum(part) as u32;
        let (_, ok, err, _) = send(&mut stub, OP_FLASH_DEFL_DATA, chk,
            &data_payload(i as u32, part));
        assert!(ok, "part {} failed: {:#x}", i, err);
    }
    let (_, ok, _, _) = send(&mut stub, OP_FLASH_DEFL_END, 0, &words(&[1]));
    assert!(ok);
    let (data, ok, _, _) = send(&mut stub, OP_READ_FLASH, 0, &words(&[0, 4096, 4096, 1]));
    assert!(ok);
    assert_eq!(data, vec![0xa5u8; 4096]);
}

#[test]
fn corrupt_compressed_data_aborts_session() {
    let mut stub = new_stub();
    let (_, ok, _, _) = send(&mut stub, OP_FLASH_DEFL_BEGIN, 0, &words(&[4096, 1, 0x4000, 0]));
    assert!(ok);
    let garbage = vec![0x12u8, 0x34, 0x56, 0x78, 0x9a, 0xbc];
    let chk = checksum(&garbage) as u32;
    let (_, ok, err, _) = send(&mut stub, OP_FLASH_DEFL_DATA, chk, &data_payload(0, &garbage));
    assert!(!ok);
    assert_eq!(err, 0xc7);
    // The session is gone.
    let (_, ok, err, _) = send(&mut stub, OP_FLASH_DEFL_DATA, chk, &data_payload(1, &garbage));
    assert!(!ok);
    assert_eq!(err, 0xc6);
}

#[test]
fn compressed_end_before_all_bytes_reports_not_enough() {
    let mut stub = new_stub();
    let (_, ok, _, _) = send(&mut stub, OP_FLASH_DEFL_BEGIN, 0, &words(&[4096, 1, 0x4000, 0]));
    assert!(ok);
    let (_, ok, err, _) = send(&mut stub, OP_FLASH_DEFL_END, 0, &words(&[1]));
    assert!(!ok);
    assert_eq!(err, 0xc8);
}

#[test]
fn change_baudrate_acknowledges_then_switches() {
    let mut stub = new_stub();
    let (_, ok, _, act) = send(&mut stub, OP_CHANGE_BAUDRATE, 0, &words(&[921600, 115200]));
    assert!(ok);
    assert_eq!(act, Action::SetBaud { baud: 921600 });
}

#[test]
fn run_user_code_requests_the_jump() {
    let mut stub = new_stub();
    let (_, ok, _, act) = send(&mut stub, OP_RUN_USER_CODE, 0, &[]);
    assert!(ok);
    assert_eq!(act, Action::RunUserCode);
}

#[test]
fn erase_flash_clears_everything() {
    let mut stub = new_stub();
    let (_, ok, _, _) = send(&mut stub, OP_ERASE_FLASH, 0, &[]);
    assert!(ok);
    let (data, ok, _, _) = send(&mut stub, OP_READ_FLASH, 0, &words(&[0, 32, 32, 1]));
    assert!(ok);
    assert_eq!(data, vec![0xff; 32]);
}

#[test]
fn queue_overflow_is_sticky_and_reported_as_fatal() {
    let mut q = RxQueue::new(4);
    for b in [1u8, 2, 3, 4] {
        q.push(b);
    }
    assert!(!q.has_overflowed());
    q.push(5);
    assert!(q.has_overflowed());
    // Draining does not clear the fault: the stream is unreliable for good.
    let mut f = Framer::new();
    assert_eq!(poll_frame(&mut q, &mut f), Err(FatalError::RxOverflow));
    assert_eq!(poll_frame(&mut q, &mut f), Err(FatalError::RxOverflow));
}

#[test]
fn queue_feeds_framer_when_no_overflow() {
    let mut q = RxQueue::new(64);
    let mut f = Framer::new();
    for b in encode_frame(&[0x00, 0x08, 0x00, 0x00, 0x01, 0x02, 0x03, 0x04]) {
        q.push(b);
    }
    let mut got: Option<Vec<u8>> = None;
    while q.len() > 0 {
        match poll_frame(&mut q, &mut f) {
            Ok(Some(frame)) => {
                got = Some(frame);
                break;
            },
            Ok(None) => {},
            Err(_) => panic!("no overflow happened"),
        }
    }
    assert_eq!(got, Some(vec![0x00, 0x08, 0x00, 0x00, 0x01, 0x02, 0x03, 0x04]));
}
