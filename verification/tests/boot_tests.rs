use crab_pi::boot::{
    build_get_code_packet, build_op_packet, build_print_string_header, build_prog_info_packet,
    build_put_code_packet, code_checksum_ok, crc32, get_op, parse_prog_info, prog_info_collides,
    BootOp, ARM_BASE, BOOT_MEMORY_END,
};
use crab_pi::wire::read_le32;

#[test]
fn op_codes_round_trip() {
    let ops = [
        BootOp::BootStart,
        BootOp::GetProgInfo,
        BootOp::PutProgInfo,
        BootOp::GetCode,
        BootOp::PutCode,
        BootOp::BootSuccess,
        BootOp::BootError,
        BootOp::PrintString,
    ];
    for op in ops {
        assert_eq!(BootOp::from_u32(op.val()), Some(op));
    }
    assert_eq!(BootOp::from_u32(0), None);
    assert_eq!(BootOp::from_u32(0x11112223), None);
}

#[test]
fn get_op_reads_the_leading_word() {
    assert_eq!(
        get_op(&[0x22, 0x22, 0x11, 0x11]),
        Some(BootOp::GetProgInfo)
    );
    assert_eq!(get_op(&[0, 0, 0, 0]), None);
    assert_eq!(
        get_op(&[0xAA, 0xAA, 0x99, 0x99, 7, 7]),
        Some(BootOp::BootSuccess)
    );
}

#[test]
fn prog_info_parses_its_four_words() {
    let mut buf: Vec<u8> = Vec::new();
    buf.extend_from_slice(&[0x44, 0x44, 0x33, 0x33]); // PUT_PROG_INFO
    buf.extend_from_slice(&[0x00, 0x80, 0x00, 0x00]); // addr 0x8000
    buf.extend_from_slice(&[0x10, 0x00, 0x00, 0x00]); // 16 bytes
    buf.extend_from_slice(&[0xEF, 0xBE, 0xAD, 0xDE]); // cksum
    let info = parse_prog_info(&buf);
    assert_eq!(info.op, BootOp::PutProgInfo.val());
    assert_eq!(info.addr, ARM_BASE);
    assert_eq!(info.nbytes, 16);
    assert_eq!(info.cksum, 0xDEAD_BEEF);
}

#[test]
fn collision_check_is_exact_at_the_boundary() {
    assert!(!prog_info_collides(0, BOOT_MEMORY_END));
    assert!(prog_info_collides(1, BOOT_MEMORY_END));
    assert!(!prog_info_collides(ARM_BASE, BOOT_MEMORY_END - ARM_BASE));
    assert!(prog_info_collides(ARM_BASE, BOOT_MEMORY_END - ARM_BASE + 1));
    // no wrap-around on large values
    assert!(prog_info_collides(u32::MAX, u32::MAX));
}

#[test]
fn crc32_matches_the_known_check_value() {
    // the CRC-32 check value of the digits 1..9
    assert_eq!(crc32(b"123456789"), 0xCBF4_3926);
    assert_eq!(crc32(b""), 0);
}

#[test]
fn checksum_decision_accepts_and_rejects() {
    let code = b"some program bytes";
    let good = crc32fast::hash(code);
    assert!(code_checksum_ok(code, good));
    assert!(!code_checksum_ok(code, good ^ 1));
    assert!(!code_checksum_ok(b"other bytes", good));
}

#[test]
fn op_packets_hold_the_wire_word() {
    let p = build_op_packet(BootOp::GetProgInfo);
    assert_eq!(p, vec![0x22, 0x22, 0x11, 0x11]);
    assert_eq!(read_le32(&p, 0), BootOp::GetProgInfo.val());
}

#[test]
fn get_code_packet_echoes_the_checksum() {
    let p = build_get_code_packet(0xDEAD_BEEF);
    assert_eq!(p.len(), 8);
    assert_eq!(read_le32(&p, 0), BootOp::GetCode.val());
    assert_eq!(read_le32(&p, 4), 0xDEAD_BEEF);
}

#[test]
fn print_string_header_carries_the_length() {
    let p = build_print_string_header(32);
    assert_eq!(p.len(), 8);
    assert_eq!(read_le32(&p, 0), BootOp::PrintString.val());
    assert_eq!(read_le32(&p, 4), 32);
}

#[test]
fn prog_info_packet_is_built_through_the_byte_buffer() {
    let p = build_prog_info_packet(ARM_BASE, 1024, 0x0102_0304);
    assert_eq!(p.len(), 16);
    assert_eq!(read_le32(&p, 0), BootOp::PutProgInfo.val());
    assert_eq!(read_le32(&p, 4), ARM_BASE);
    assert_eq!(read_le32(&p, 8), 1024);
    assert_eq!(read_le32(&p, 12), 0x0102_0304);
    assert_eq!(&p[0..4], &[0x44, 0x44, 0x33, 0x33]);
}

#[test]
fn put_code_packet_prefixes_the_program() {
    let program = [1u8, 2, 3, 4, 5];
    let p = build_put_code_packet(&program);
    assert_eq!(p.len(), 9);
    assert_eq!(read_le32(&p, 0), BootOp::PutCode.val());
    assert_eq!(&p[4..], &program);

    let empty = build_put_code_packet(&[]);
    assert_eq!(empty.len(), 4);
    assert_eq!(read_le32(&empty, 0), BootOp::PutCode.val());
}
