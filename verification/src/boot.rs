//! Boot protocol between the board and the host installer.
//!
//! The board asks for a program, the host sends address, size and
//! CRC-32, then the code itself; the board checks the checksum and
//! answers success or error.  Every packet is little-endian words on a
//! serial line; moving the bytes is the shell's work, while this
//! module holds the packet formats, the header parsing, the collision
//! rule and the checksum decision.

use crate::wire::{le32_bytes, le32_spec, read_le32, u32_le_bytes};
use vstd::prelude::*;

verus! {

/// Load address of a boot program.
pub const ARM_BASE: u32 = 0x8000;

/// End of the memory the boot program may occupy.
pub const BOOT_MEMORY_END: u32 = 0x20_0000;

/// Operations of the boot protocol.  The byte patterns are deliberately
/// distinctive, to help when a byte is dropped, flipped or corrupted.
#[derive(Clone, Copy, PartialEq, Eq, Structural, Debug)]
pub enum BootOp {
    BootStart,
    /// The board asks for the program info.
    GetProgInfo,
    /// The host sends address, byte count and checksum.
    PutProgInfo,
    /// The board echoes the checksum and asks for the code.
    GetCode,
    /// The host sends the code.
    PutCode,
    /// The board reports a successful boot.
    BootSuccess,
    /// The board reports a failed boot.
    BootError,
    /// The board asks the host to print a string.
    PrintString,
}

/// Wire encoding of a boot operation.
pub open spec fn boot_op_val(op: BootOp) -> u32 {
    match op {
        BootOp::BootStart => 0xFFFF0000,
        BootOp::GetProgInfo => 0x11112222,
        BootOp::PutProgInfo => 0x33334444,
        BootOp::GetCode => 0x55556666,
        BootOp::PutCode => 0x77778888,
        BootOp::BootSuccess => 0x9999AAAA,
        BootOp::BootError => 0xBBBBCCCC,
        BootOp::PrintString => 0xDDDDEEEE,
    }
}

/// The boot operation a wire word encodes, if any.
pub open spec fn boot_op_of(v: int) -> Option<BootOp> {
    if v == 0xFFFF0000 {
        Some(BootOp::BootStart)
    } else if v == 0x11112222 {
        Some(BootOp::GetProgInfo)
    } else if v == 0x33334444 {
        Some(BootOp::PutProgInfo)
    } else if v == 0x55556666 {
        Some(BootOp::GetCode)
    } else if v == 0x77778888 {
        Some(BootOp::PutCode)
    } else if v == 0x9999AAAA {
        Some(BootOp::BootSuccess)
    } else if v == 0xBBBBCCCC {
        Some(BootOp::BootError)
    } else if v == 0xDDDDEEEE {
        Some(BootOp::PrintString)
    } else {
        None
    }
}

impl BootOp {
    /// Wire encoding of this operation.
    pub fn val(self) -> (r: u32)
        ensures
            r == boot_op_val(self),
    {
        match self {
            BootOp::BootStart => 0xFFFF0000,
            BootOp::GetProgInfo => 0x11112222,
            BootOp::PutProgInfo => 0x33334444,
            BootOp::GetCode => 0x55556666,
            BootOp::PutCode => 0x77778888,
            BootOp::BootSuccess => 0x9999AAAA,
            BootOp::BootError => 0xBBBBCCCC,
            BootOp::PrintString => 0xDDDDEEEE,
        }
    }

    /// Decodes a wire word.
    pub fn from_u32(v: u32) -> (r: Option<BootOp>)
        ensures
            r == boot_op_of(v as int),
    {
        if v == 0xFFFF0000 {
            Some(BootOp::BootStart)
        } else if v == 0x11112222 {
            Some(BootOp::GetProgInfo)
        } else if v == 0x33334444 {
            Some(BootOp::PutProgInfo)
        } else if v == 0x55556666 {
            Some(BootOp::GetCode)
        } else if v == 0x77778888 {
            Some(BootOp::PutCode)
        } else if v == 0x9999AAAA {
            Some(BootOp::BootSuccess)
        } else if v == 0xBBBBCCCC {
            Some(BootOp::BootError)
        } else if v == 0xDDDDEEEE {
            Some(BootOp::PrintString)
        } else {
            None
        }
    }
}

/// The operation at the front of a four-byte packet, if its word
/// encodes one.
pub fn get_op(buf: &[u8]) -> (r: Option<BootOp>)
    requires
        buf@.len() >= 4,
    ensures
        r == boot_op_of(le32_spec(buf@, 0)),
{
    let op_code = read_le32(buf, 0);
    BootOp::from_u32(op_code)
}

/// Program info sent by the host: where to load, how many bytes, and
/// their checksum.
#[derive(Clone, Copy, PartialEq, Eq, Structural, Debug)]
pub struct ProgInfo {
    pub op: u32,
    pub addr: u32,
    pub nbytes: u32,
    pub cksum: u32,
}

/// Parses the four words of a program-info packet.
pub fn parse_prog_info(buf: &[u8]) -> (r: ProgInfo)
    requires
        buf@.len() >= 16,
    ensures
        r.op == le32_spec(buf@, 0),
        r.addr == le32_spec(buf@, 4),
        r.nbytes == le32_spec(buf@, 8),
        r.cksum == le32_spec(buf@, 12),
{
    ProgInfo {
        op: read_le32(buf, 0),
        addr: read_le32(buf, 4),
        nbytes: read_le32(buf, 8),
        cksum: read_le32(buf, 12),
    }
}

/// Whether a program of `nbytes` bytes loaded at `addr` would run
/// past the memory the boot program may occupy.
pub fn prog_info_collides(addr: u32, nbytes: u32) -> (r: bool)
    ensures
        r == (addr + nbytes > BOOT_MEMORY_END),
{
    (addr as u64) + (nbytes as u64) > (BOOT_MEMORY_END as u64)
}

/// CRC-32 checksum of a byte sequence, as the checksum crate computes
/// it: a function of the bytes alone.
pub uninterp spec fn crc32_of(data: Seq<u8>) -> u32;

/// Relies on crc32fast::hash: computes the IEEE CRC-32 checksum of the
/// bytes, deterministically from the data alone.
#[verifier::external_body]
fn crc32_hash(data: &[u8]) -> (r: u32)
    ensures
        r == crc32_of(data@),
{
    crc32fast::hash(data)
}

/// CRC-32 checksum of `data`.
pub fn crc32(data: &[u8]) -> (r: u32)
    ensures
        r == crc32_of(data@),
{
    crc32_hash(data)
}

/// The checksum decision of the boot: whether the received code hashes
/// to the checksum announced in the program info.
pub fn code_checksum_ok(code: &[u8], cksum: u32) -> (r: bool)
    ensures
        r == (crc32_of(code@) == cksum),
{
    let recv_crc32 = crc32_hash(code);
    recv_crc32 == cksum
}

/// A four-byte packet holding one operation word (the board's probe
/// and report packets).
pub fn build_op_packet(op: BootOp) -> (r: Vec<u8>)
    ensures
        r@.len() == 4,
        le32_spec(r@, 0) == boot_op_val(op),
{
    u32_le_bytes(op.val())
}

/// The board's eight-byte answer to the program info: the get-code
/// word followed by the checksum echoed back.
pub fn build_get_code_packet(cksum: u32) -> (r: Vec<u8>)
    ensures
        r@.len() == 8,
        le32_spec(r@, 0) == boot_op_val(BootOp::GetCode),
        le32_spec(r@, 4) == cksum,
{
    let mut r = u32_le_bytes(BootOp::GetCode.val());
    let mut tail = u32_le_bytes(cksum);
    r.append(&mut tail);
    assert(le32_spec(r@, 0) == boot_op_val(BootOp::GetCode));
    r
}

/// The board's eight-byte print-string header: the print word and the
/// length of the string that follows.
pub fn build_print_string_header(len: u32) -> (r: Vec<u8>)
    ensures
        r@.len() == 8,
        le32_spec(r@, 0) == boot_op_val(BootOp::PrintString),
        le32_spec(r@, 4) == len,
{
    let mut r = u32_le_bytes(BootOp::PrintString.val());
    let mut tail = u32_le_bytes(len);
    r.append(&mut tail);
    assert(le32_spec(r@, 0) == boot_op_val(BootOp::PrintString));
    r
}

#[verifier::external_type_specification]
#[verifier::external_body]
pub struct ExBytesMut(bytes::BytesMut);

/// What the host's buffer builder appends to a buffer: a name for the
/// bytes a `bytes::BytesMut` holds.
pub uninterp spec fn bytes_mut_data(b: bytes::BytesMut) -> Seq<u8>;

/// Relies on bytes::BytesMut::with_capacity: a new buffer holding no
/// bytes.
#[verifier::external_body]
fn bytes_mut_with_capacity(capacity: usize) -> (r: bytes::BytesMut)
    ensures
        bytes_mut_data(r) == Seq::<u8>::empty(),
{
    bytes::BytesMut::with_capacity(capacity)
}

/// Relies on bytes::BufMut::put_u32_le on BytesMut: appends the four
/// little-endian bytes of the value.
#[verifier::external_body]
fn bytes_mut_put_u32_le(b: &mut bytes::BytesMut, v: u32)
    requires
        bytes_mut_data(*old(b)).len() + 4 <= usize::MAX,
    ensures
        bytes_mut_data(*final(b)) == bytes_mut_data(*old(b)) + le32_bytes(v),
{
    bytes::BufMut::put_u32_le(b, v)
}

/// Relies on bytes::BufMut::put_slice on BytesMut: appends the slice.
#[verifier::external_body]
fn bytes_mut_put_slice(b: &mut bytes::BytesMut, src: &[u8])
    requires
        bytes_mut_data(*old(b)).len() + src@.len() <= usize::MAX,
    ensures
        bytes_mut_data(*final(b)) == bytes_mut_data(*old(b)) + src@,
{
    bytes::BufMut::put_slice(b, src)
}

/// Relies on BytesMut's AsRef: the byte-slice view holds exactly the
/// buffer's bytes.
#[verifier::external_body]
fn bytes_mut_to_vec(b: &bytes::BytesMut) -> (r: Vec<u8>)
    ensures
        r@ == bytes_mut_data(*b),
{
    b.as_ref().to_vec()
}

/// The host's sixteen-byte program-info packet: the put-prog-info
/// word, the load address, the byte count and the CRC-32 of the code.
pub fn build_prog_info_packet(addr: u32, nbytes: u32, crc: u32) -> (r: Vec<u8>)
    ensures
        r@.len() == 16,
        le32_spec(r@, 0) == boot_op_val(BootOp::PutProgInfo),
        le32_spec(r@, 4) == addr,
        le32_spec(r@, 8) == nbytes,
        le32_spec(r@, 12) == crc,
{
    let mut buf = bytes_mut_with_capacity(16);
    bytes_mut_put_u32_le(&mut buf, BootOp::PutProgInfo.val());
    bytes_mut_put_u32_le(&mut buf, addr);
    bytes_mut_put_u32_le(&mut buf, nbytes);
    bytes_mut_put_u32_le(&mut buf, crc);
    let r = bytes_mut_to_vec(&buf);
    assert(r@ =~= le32_bytes(boot_op_val(BootOp::PutProgInfo)) + le32_bytes(addr) + le32_bytes(
        nbytes,
    ) + le32_bytes(crc));
    r
}

/// The host's code packet: the put-code word followed by the program
/// bytes.
pub fn build_put_code_packet(program: &[u8]) -> (r: Vec<u8>)
    requires
        program@.len() + 8 <= usize::MAX,
    ensures
        r@.len() == 4 + program@.len(),
        le32_spec(r@, 0) == boot_op_val(BootOp::PutCode),
        r@.subrange(4, r@.len() as int) == program@,
{
    let mut buf = bytes_mut_with_capacity(4);
    bytes_mut_put_u32_le(&mut buf, BootOp::PutCode.val());
    bytes_mut_put_slice(&mut buf, program);
    let r = bytes_mut_to_vec(&buf);
    assert(r@ =~= le32_bytes(boot_op_val(BootOp::PutCode)) + program@);
    assert(r@.subrange(4, r@.len() as int) =~= program@);
    r
}

} // verus!
