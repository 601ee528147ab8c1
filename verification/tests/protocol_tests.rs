use flasher_stub::checksum;
use flasher_stub::stub::Action;
use flasher_stub::stub::Stub;
use flasher_stub::targets::TargetParams;

const OP_FLASH_BEGIN: u8 = 0x02;
const OP_FLASH_DATA: u8 = 0x03;
const OP_FLASH_END: u8 = 0x04;
const OP_MEM_BEGIN: u8 = 0x05;
const OP_MEM_END: u8 = 0x06;
const OP_MEM_DATA: u8 = 0x07;
const OP_SYNC: u8 = 0x08;
const OP_WRITE_REG: u8 = 0x09;
const OP_READ_REG: u8 = 0x0a;
const OP_SPI_FLASH_MD5: u8 = 0x13;
const OP_ERASE_REGION: u8 = 0xd1;
const OP_READ_FLASH: u8 = 0xd2;

struct Reply {
    opcode: u8,
    value: u32,
    data: Vec<u8>,
    ok: bool,
    error: u8,
}

fn packet(op: u8, value: u32, payload: &[u8]) -> Vec<u8> {
    let mut out = vec![0u8, op];
    out.extend_from_slice(&(payload.len() as u16).to_le_bytes());
    out.extend_from_slice(&value.to_le_bytes());
    out.extend_from_slice(payload);
    out
}

fn data_payload(seq: u32, data: &[u8]) -> Vec<u8> {
    let mut out = Vec::new();
    out.extend_from_slice(&(data.len() as u32).to_le_bytes());
    out.extend_from_slice(&seq.to_le_bytes());
    out.extend_from_slice(&0u32.to_le_bytes());
    out.extend_from_slice(&0u32.to_le_bytes());
    out.extend_from_slice(data);
    out
}

fn words(vals: &[u32]) -> Vec<u8> {
    let mut out = Vec::new();
    for v in vals {
        out.extend_from_slice(&v.to_le_bytes());
    }
    out
}

fn parse_reply(bytes: &[u8]) -> Reply {
    assert!(bytes.len() >= 10);
    assert_eq!(bytes[0], 0x01);
    let size = u16::from_le_bytes([bytes[2], bytes[3]]) as usize;
    assert_eq!(size, bytes.len() - 8);
    let value = u32::from_le_bytes([bytes[4], bytes[5], bytes[6], bytes[7]]);
    let data = bytes[8..bytes.len() - 2].to_vec();
    Reply {
        opcode: bytes[1],
        value,
        data,
        ok: bytes[bytes.len() - 2] == 0,
        error: bytes[bytes.len() - 1],
    }
}

fn send(stub: &mut Stub, op: u8, value: u32, payload: &[u8]) -> (Reply, Action) {
    let (out, act) = stub.handle_frame(&packet(op, value, payload));
    (parse_reply(&out), act)
}

fn new_stub() -> Stub {
    Stub::new(TargetParams::generic(), 64 * 1024)
}

#[test]
fn checksum_seed_and_xor() {
    assert_eq!(checksum(&[]), 0xef);
    assert_eq!(checksum(&[1, 2, 3]), 0xef ^ 1 ^ 2 ^ 3);
    assert_eq!(checksum(&[0xaa; 1024]), 0xef);
}

#[test]
fn flash_session_writes_blocks_in_order() {
    let mut stub = new_stub();
    let o: u32 = 0x2000;
    let (r, _) = send(&mut stub, OP_FLASH_BEGIN, 0, &words(&[4096, 4, 1024, o]));
    assert!(r.ok);
    let mut all = Vec::new();
    for i in 0..4u32 {
        let block = vec![i as u8; 1024];
        let chk = checksum(&block) as u32;
        let (r, _) = send(&mut stub, OP_FLASH_DATA, chk, &data_payload(i, &block));
        assert!(r.ok, "block {} failed with {:#x}", i, r.error);
        all.extend_from_slice(&block);
    }
    let (r, act) = send(&mut stub, OP_FLASH_END, 0, &words(&[1]));
    assert!(r.ok);
    assert_eq!(act, Action::Continue);
    let (r, _) = send(&mut stub, OP_READ_FLASH, 0, &words(&[o, 4096, 4096, 1]));
    assert!(r.ok);
    assert_eq!(r.data, all);
    let (r, _) = send(&mut stub, OP_SPI_FLASH_MD5, 0, &words(&[o, 4096, 0, 0]));
    assert!(r.ok);
    let expected: [u8; 16] = [
        195, 131, 33, 164, 229, 217, 82, 40, 116, 250, 53, 242, 99, 188, 144, 56,
    ];
    assert_eq!(r.data, expected);
}

#[test]
fn out_of_order_sequence_fails_then_resend_succeeds() {
    let mut stub = new_stub();
    let (r, _) = send(&mut stub, OP_FLASH_BEGIN, 0, &words(&[2048, 2, 1024, 0x1000]));
    assert!(r.ok);
    let block = vec![0x5a; 1024];
    let chk = checksum(&block) as u32;
    // Sequence 1 instead of the expected 0: refused, session unchanged.
    let (r, _) = send(&mut stub, OP_FLASH_DATA, chk, &data_payload(1, &block));
    assert!(!r.ok);
    assert_eq!(r.error, 0xcb);
    // The expected sequence still succeeds afterwards.
    let (r, _) = send(&mut stub, OP_FLASH_DATA, chk, &data_payload(0, &block));
    assert!(r.ok);
    // And the follow-up block as well.
    let (r, _) = send(&mut stub, OP_FLASH_DATA, chk, &data_payload(1, &block));
    assert!(r.ok);
}

#[test]
fn begin_then_end_with_zero_blocks_is_clean() {
    let mut stub = new_stub();
    let (r, _) = send(&mut stub, OP_FLASH_BEGIN, 0, &words(&[4096, 4, 1024, 0]));
    assert!(r.ok);
    let (r, act) = send(&mut stub, OP_FLASH_END, 0, &words(&[1]));
    assert!(r.ok);
    assert_eq!(act, Action::Continue);
    // The session is gone: another END finds no session.
    let (r, _) = send(&mut stub, OP_FLASH_END, 0, &words(&[1]));
    assert!(!r.ok);
    assert_eq!(r.error, 0xc6);
}

#[test]
fn sync_discards_session_and_next_begin_is_fresh() {
    let mut stub = new_stub();
    let (r, _) = send(&mut stub, OP_FLASH_BEGIN, 0, &words(&[2048, 2, 1024, 0x1000]));
    assert!(r.ok);
    let block = vec![0x11; 1024];
    let chk = checksum(&block) as u32;
    let (r, _) = send(&mut stub, OP_FLASH_DATA, chk, &data_payload(0, &block));
    assert!(r.ok);
    let (r, _) = send(&mut stub, OP_SYNC, 0, &[0x07, 0x07, 0x12, 0x20]);
    assert!(r.ok);
    // Data without a session is refused now.
    let (r, _) = send(&mut stub, OP_FLASH_DATA, chk, &data_payload(1, &block));
    assert!(!r.ok);
    assert_eq!(r.error, 0xc6);
    // A fresh session expects sequence 0 again.
    let (r, _) = send(&mut stub, OP_FLASH_BEGIN, 0, &words(&[2048, 2, 1024, 0x1000]));
    assert!(r.ok);
    let (r, _) = send(&mut stub, OP_FLASH_DATA, chk, &data_payload(0, &block));
    assert!(r.ok);
}

#[test]
fn unknown_opcode_echoes_opcode_and_leaves_state() {
    let mut stub = new_stub();
    let (r, _) = send(&mut stub, OP_FLASH_BEGIN, 0, &words(&[1024, 1, 1024, 0]));
    assert!(r.ok);
    let (r, act) = send(&mut stub, 0x42, 0, &[1, 2, 3]);
    assert!(!r.ok);
    assert_eq!(r.opcode, 0x42);
    assert_eq!(r.error, 0xc3);
    assert_eq!(act, Action::Continue);
    // The session survived the unknown command.
    let block = vec![0x77; 1024];
    let chk = checksum(&block) as u32;
    let (r, _) = send(&mut stub, OP_FLASH_DATA, chk, &data_payload(0, &block));
    assert!(r.ok);
}

#[test]
fn bad_checksum_is_reported_and_block_can_be_resent() {
    let mut stub = new_stub();
    let (r, _) = send(&mut stub, OP_FLASH_BEGIN, 0, &words(&[1024, 1, 1024, 0]));
    assert!(r.ok);
    let block = vec![0x3c; 1024];
    let chk = checksum(&block) as u32;
    let (r, _) = send(&mut stub, OP_FLASH_DATA, chk ^ 0xff, &data_payload(0, &block));
    assert!(!r.ok);
    assert_eq!(r.error, 0xc1);
    let (r, _) = send(&mut stub, OP_FLASH_DATA, chk, &data_payload(0, &block));
    assert!(r.ok);
}

#[test]
fn bad_block_size_and_data_len_are_refused() {
    let mut stub = new_stub();
    // Block size above the target's bound.
    let (r, _) = send(&mut stub, OP_FLASH_BEGIN, 0, &words(&[4096, 1, 0x8000, 0]));
    assert!(!r.ok);
    assert_eq!(r.error, 0xc2);
    // A begin with a short payload.
    let (r, _) = send(&mut stub, OP_FLASH_BEGIN, 0, &words(&[4096, 1, 1024]));
    assert!(!r.ok);
    assert_eq!(r.error, 0xc0);
    // A block longer than the declared block size.
    let (r, _) = send(&mut stub, OP_FLASH_BEGIN, 0, &words(&[4096, 4, 16, 0]));
    assert!(r.ok);
    let block = vec![0u8; 32];
    let chk = checksum(&block) as u32;
    let (r, _) = send(&mut stub, OP_FLASH_DATA, chk, &data_payload(0, &block));
    assert!(!r.ok);
    assert_eq!(r.error, 0xc0);
}

#[test]
fn writing_past_declared_total_is_refused() {
    let mut stub = new_stub();
    let (r, _) = send(&mut stub, OP_FLASH_BEGIN, 0, &words(&[512, 1, 1024, 0]));
    assert!(r.ok);
    let block = vec![0x01; 1024];
    let chk = checksum(&block) as u32;
    let (r, _) = send(&mut stub, OP_FLASH_DATA, chk, &data_payload(0, &block));
    assert!(!r.ok);
    assert_eq!(r.error, 0xc9);
}

#[test]
fn flash_begin_past_end_of_flash_is_refused() {
    let mut stub = new_stub();
    let (r, _) = send(&mut stub, OP_FLASH_BEGIN, 0, &words(&[4096, 1, 1024, 0x10_0000]));
    assert!(!r.ok);
    assert_eq!(r.error, 0xc4);
}

#[test]
fn md5_out_of_bounds_is_refused() {
    let mut stub = new_stub();
    let (r, _) = send(&mut stub, OP_SPI_FLASH_MD5, 0, &words(&[0x1_0000, 16, 0, 0]));
    assert!(!r.ok);
    assert_eq!(r.error, 0xc4);
}

#[test]
fn md5_of_two_known_blocks() {
    let mut stub = new_stub();
    let (r, _) = send(&mut stub, OP_FLASH_BEGIN, 0, &words(&[2048, 2, 1024, 0x1000]));
    assert!(r.ok);
    for (i, fill) in [(0u32, 0xaau8), (1u32, 0x55u8)] {
        let block = vec![fill; 1024];
        let chk = checksum(&block) as u32;
        let (r, _) = send(&mut stub, OP_FLASH_DATA, chk, &data_payload(i, &block));
        assert!(r.ok);
    }
    let (r, _) = send(&mut stub, OP_SPI_FLASH_MD5, 0, &words(&[0x1000, 2048, 0, 0]));
    assert!(r.ok);
    let expected: [u8; 16] = [
        18, 120, 191, 166, 149, 88, 83, 221, 97, 17, 20, 32, 206, 101, 41, 233,
    ];
    assert_eq!(r.data, expected);
}

#[test]
fn erase_region_sets_cells_to_ones() {
    let mut stub = new_stub();
    let (r, _) = send(&mut stub, OP_FLASH_BEGIN, 0, &words(&[1024, 1, 1024, 0x1000]));
    assert!(r.ok);
    let block = vec![0x00; 1024];
    let chk = checksum(&block) as u32;
    let (r, _) = send(&mut stub, OP_FLASH_DATA, chk, &data_payload(0, &block));
    assert!(r.ok);
    let (r, _) = send(&mut stub, OP_ERASE_REGION, 0, &words(&[0x1000, 0x1000]));
    assert!(r.ok);
    let (r, _) = send(&mut stub, OP_READ_FLASH, 0, &words(&[0x1000, 16, 16, 1]));
    assert!(r.ok);
    assert_eq!(r.data, vec![0xff; 16]);
    // An unaligned erase is refused.
    let (r, _) = send(&mut stub, OP_ERASE_REGION, 0, &words(&[0x1001, 0x1000]));
    assert!(!r.ok);
    assert_eq!(r.error, 0xc4);
}

#[test]
fn register_access_is_allow_listed_and_masked() {
    let mut stub = new_stub();
    let addr: u32 = 0x3ff40000;
    let (r, _) = send(&mut stub, OP_WRITE_REG, 0, &words(&[addr, 0xdead_beef, 0xffff_ffff, 0]));
    assert!(r.ok);
    let (r, _) = send(&mut stub, OP_READ_REG, 0, &words(&[addr]));
    assert!(r.ok);
    assert_eq!(r.value, 0xdead_beef);
    // A masked write touches only the masked bits.
    let (r, _) = send(&mut stub, OP_WRITE_REG, 0, &words(&[addr, 0xffff_0000, 0x0000_ffff, 0]));
    assert!(r.ok);
    let (r, _) = send(&mut stub, OP_READ_REG, 0, &words(&[addr]));
    assert_eq!(r.value, 0xdead_0000);
    // Outside the allow-list.
    let (r, _) = send(&mut stub, OP_READ_REG, 0, &words(&[0x0000_0004]));
    assert!(!r.ok);
    assert_eq!(r.error, 0xca);
}

#[test]
fn mem_session_records_writes_and_end_jumps() {
    let mut stub = new_stub();
    let (r, _) = send(&mut stub, OP_MEM_BEGIN, 0, &words(&[8, 1, 8, 0x4008_0000]));
    assert!(r.ok);
    let block: Vec<u8> = vec![1, 2, 3, 4, 5, 6, 7, 8];
    let chk = checksum(&block) as u32;
    let (r, _) = send(&mut stub, OP_MEM_DATA, chk, &data_payload(0, &block));
    assert!(r.ok);
    let (r, act) = send(&mut stub, OP_MEM_END, 0, &words(&[0, 0x4008_0000]));
    assert!(r.ok);
    assert_eq!(act, Action::JumpTo { entry: 0x4008_0000 });
    assert_eq!(stub.ram.len(), 1);
    assert_eq!(stub.ram[0].addr, 0x4008_0000);
    assert_eq!(stub.ram[0].data, block);
}

#[test]
fn malformed_packets_are_answered_not_dropped() {
    let mut stub = new_stub();
    // Too short for a header.
    let (out, _) = stub.handle_frame(&[0x00, 0x08]);
    let r = parse_reply(&out);
    assert!(!r.ok);
    assert_eq!(r.error, 0xc0);
    // Wrong direction marker.
    let mut p = packet(OP_SYNC, 0, &[]);
    p[0] = 0x01;
    let (out, _) = stub.handle_frame(&p);
    let r = parse_reply(&out);
    assert!(!r.ok);
    assert_eq!(r.error, 0xc3);
    // Declared length disagreeing with the bytes present.
    let mut p = packet(OP_SYNC, 0, &[]);
    p[2] = 9;
    let (out, _) = stub.handle_frame(&p);
    let r = parse_reply(&out);
    assert!(!r.ok);
    assert_eq!(r.error, 0xc0);
}

#[test]
fn greeting_is_the_framed_ohai() {
    assert_eq!(Stub::greeting(), vec![0xc0, 0x4f, 0x48, 0x41, 0x49, 0xc0]);
}

#[test]
fn mem_begin_overflowing_the_address_space_is_refused() {
    let mut stub = new_stub();
    let (r, _) = send(&mut stub, OP_MEM_BEGIN, 0, &words(&[0x2000, 1, 1024, 0xffff_f000]));
    assert!(!r.ok);
    assert_eq!(r.error, 0xc0);
}
