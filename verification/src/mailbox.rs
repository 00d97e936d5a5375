//! Firmware mailbox property interface.
//!
//! A query to the firmware is one 16-byte-aligned message buffer: a
//! total size, a request/response code, one tag with its value buffer,
//! and an end tag.  The firmware overwrites the value buffer in place
//! and flips the response codes.  Handing the buffer's address to the
//! mailbox registers is the shell's work; this module builds request
//! messages and decodes the responses.

use crate::wire::{le32_spec, read_le32};
use vstd::prelude::*;

verus! {

/// Tag: board serial number (eight-byte value buffer).
pub const MBOX_TAG_GET_SERIAL_NUM: u32 = 0x0001_0004;

/// Tag: board model (four-byte value buffer).
pub const MBOX_TAG_GET_MODEL: u32 = 0x0001_0001;

/// Tag: board revision (four-byte value buffer).
pub const MBOX_TAG_GET_REVISION: u32 = 0x0001_0002;

/// Tag: ARM memory base and size (eight-byte value buffer).
pub const MBOX_TAG_GET_MEMORY: u32 = 0x0001_0005;

/// Tag: SoC temperature (eight-byte value buffer).
pub const MBOX_TAG_GET_TEMPERATURE: u32 = 0x0003_000a;

/// Tag: current clock rate of a clock (eight-byte value buffer).
pub const MBOX_TAG_CLOCK_GET_RATE: u32 = 0x0003_0002;

/// Tag: maximum clock rate of a clock (eight-byte value buffer).
pub const MBOX_TAG_CLOCK_GET_MAX: u32 = 0x0003_0004;

/// Tag: minimum clock rate of a clock (eight-byte value buffer).
pub const MBOX_TAG_CLOCK_GET_MIN: u32 = 0x0003_0007;

/// Tag: set a clock's rate (twelve-byte value buffer).
pub const MBOX_TAG_CLOCK_SET_RATE: u32 = 0x0003_8002;

/// Response code the firmware writes into a successfully handled
/// message.
pub const MBOX_RESP_SUCCESS: u32 = 0x8000_0000;

/// A clock the firmware can be asked about.
#[derive(Clone, Copy, PartialEq, Eq, Structural, Debug)]
pub enum RpiClockType {
    Cpu,
    Core,
    Sdram,
    V3d,
}

/// Firmware id of a clock.
pub open spec fn clock_id(clock: RpiClockType) -> u32 {
    match clock {
        RpiClockType::Cpu => 0x3,
        RpiClockType::Core => 0x4,
        RpiClockType::Sdram => 0x8,
        RpiClockType::V3d => 0x5,
    }
}

impl RpiClockType {
    /// Firmware id of this clock.
    pub fn val(self) -> (r: u32)
        ensures
            r == clock_id(self),
    {
        match self {
            RpiClockType::Cpu => 0x3,
            RpiClockType::Core => 0x4,
            RpiClockType::Sdram => 0x8,
            RpiClockType::V3d => 0x5,
        }
    }
}

/// One mailbox property message, field for field as it is laid out in
/// memory: five header words, the value buffer, and the end tag.
pub struct MailBoxMsg {
    /// Total size of the message buffer in bytes, padded to the
    /// 16-byte alignment the mailbox demands.
    pub buf_size: u32,
    /// 0 in a request; the firmware writes the response code here.
    pub buf_req_resp_code: u32,
    /// The property tag queried.
    pub tag_id: u32,
    /// Capacity of the value buffer in bytes.
    pub tag_value_buffer_size: u32,
    /// 0 in a request; the firmware writes the tag response here.
    pub tag_req_resp_code: u32,
    /// The tag's value: query parameters out, results back in.
    pub value_buf: Vec<u8>,
    /// Always 0.
    pub end_tag: u32,
}

impl MailBoxMsg {
    /// Sizes are consistent: the value buffer has its declared
    /// capacity and the total is the padded struct size.
    pub open spec fn wf(self) -> bool {
        &&& self.value_buf@.len() == self.tag_value_buffer_size
        &&& self.buf_size == ((24 + self.value_buf@.len() + 15) / 16 * 16)
        &&& self.end_tag == 0
    }

    /// A fresh request for `tag_id` with an `n`-byte, zeroed value
    /// buffer.
    pub fn new(tag_id: u32, n: usize) -> (msg: MailBoxMsg)
        requires
            n + 39 <= u32::MAX,
        ensures
            msg.wf(),
            msg.tag_id == tag_id,
            msg.tag_value_buffer_size == n,
            msg.buf_req_resp_code == 0,
            msg.tag_req_resp_code == 0,
            msg.value_buf@ =~= Seq::new(n as nat, |i: int| 0u8),
    {
        let buf_size = (((24 + n) + 15) / 16 * 16) as u32;
        let value_buf: Vec<u8> = vec![0u8; n];
        MailBoxMsg {
            buf_size,
            buf_req_resp_code: 0,
            tag_id,
            tag_value_buffer_size: n as u32,
            tag_req_resp_code: 0,
            value_buf,
            end_tag: 0,
        }
    }

    /// Copies `value` into the front of the value buffer.  A value
    /// longer than the buffer is a programming error, excluded by the
    /// precondition.
    pub fn set_value(&mut self, value: &[u8])
        requires
            value@.len() <= old(self).value_buf@.len(),
        ensures
            final(self).value_buf@.len() == old(self).value_buf@.len(),
            forall|i: int|
                0 <= i < value@.len() ==> final(self).value_buf@[i] == value@[i],
            forall|i: int|
                value@.len() <= i < old(self).value_buf@.len() ==> final(self).value_buf@[i]
                    == old(self).value_buf@[i],
            final(self).buf_size == old(self).buf_size,
            final(self).buf_req_resp_code == old(self).buf_req_resp_code,
            final(self).tag_id == old(self).tag_id,
            final(self).tag_value_buffer_size == old(self).tag_value_buffer_size,
            final(self).tag_req_resp_code == old(self).tag_req_resp_code,
            final(self).end_tag == old(self).end_tag,
    {
        let mut i: usize = 0;
        while i < value.len()
            invariant
                i <= value@.len(),
                value@.len() <= self.value_buf@.len(),
                self.value_buf@.len() == old(self).value_buf@.len(),
                forall|j: int| 0 <= j < i ==> self.value_buf@[j] == value@[j],
                forall|j: int|
                    i <= j < old(self).value_buf@.len() ==> self.value_buf@[j] == old(
                        self,
                    ).value_buf@[j],
                self.buf_size == old(self).buf_size,
                self.buf_req_resp_code == old(self).buf_req_resp_code,
                self.tag_id == old(self).tag_id,
                self.tag_value_buffer_size == old(self).tag_value_buffer_size,
                self.tag_req_resp_code == old(self).tag_req_resp_code,
                self.end_tag == old(self).end_tag,
            decreases value@.len() - i,
        {
            let b = value[i];
            self.value_buf.set(i, b);
            i = i + 1;
        }
    }

    /// The value buffer.
    pub fn get_value(&self) -> (r: &[u8])
        ensures
            r@ == self.value_buf@,
    {
        self.value_buf.as_slice()
    }

    /// Whether the firmware marked the message successfully handled.
    pub fn response_ok(&self) -> (r: bool)
        ensures
            r == (self.buf_req_resp_code == MBOX_RESP_SUCCESS),
    {
        self.buf_req_resp_code == MBOX_RESP_SUCCESS
    }
}

/// Board serial number out of a completed serial-number response: the
/// low word of the value buffer.
pub fn mbox_get_serial_num(resp: &MailBoxMsg) -> (r: u64)
    requires
        resp.tag_id == MBOX_TAG_GET_SERIAL_NUM,
        resp.value_buf@.len() == 8,
    ensures
        r == le32_spec(resp.value_buf@, 0),
{
    read_le32(resp.value_buf.as_slice(), 0) as u64
}

/// Board model out of a completed model response.
pub fn mbox_get_model(resp: &MailBoxMsg) -> (r: u32)
    requires
        resp.tag_id == MBOX_TAG_GET_MODEL,
        resp.value_buf@.len() == 4,
    ensures
        r == le32_spec(resp.value_buf@, 0),
{
    read_le32(resp.value_buf.as_slice(), 0)
}

/// Board revision out of a completed revision response.
pub fn mbox_get_revision(resp: &MailBoxMsg) -> (r: u32)
    requires
        resp.tag_id == MBOX_TAG_GET_REVISION,
        resp.value_buf@.len() == 4,
    ensures
        r == le32_spec(resp.value_buf@, 0),
{
    read_le32(resp.value_buf.as_slice(), 0)
}

/// ARM memory size out of a completed memory response: the second
/// word (the first is the base address).
pub fn mbox_get_memory(resp: &MailBoxMsg) -> (r: u32)
    requires
        resp.tag_id == MBOX_TAG_GET_MEMORY,
        resp.value_buf@.len() == 8,
    ensures
        r == le32_spec(resp.value_buf@, 4),
{
    read_le32(resp.value_buf.as_slice(), 4)
}

/// SoC temperature out of a completed temperature response: the
/// second word (the first echoes the sensor id).
pub fn mbox_get_temperature(resp: &MailBoxMsg) -> (r: u32)
    requires
        resp.tag_id == MBOX_TAG_GET_TEMPERATURE,
        resp.value_buf@.len() == 8,
    ensures
        r == le32_spec(resp.value_buf@, 4),
{
    read_le32(resp.value_buf.as_slice(), 4)
}

/// Current rate of `clock` out of a completed rate response: the
/// second word, after checking that the first echoes the clock asked
/// about.
pub fn rpi_clock_current_hz_get(clock: RpiClockType, resp: &MailBoxMsg) -> (r: u32)
    requires
        resp.tag_id == MBOX_TAG_CLOCK_GET_RATE,
        resp.value_buf@.len() == 8,
        le32_spec(resp.value_buf@, 0) == clock_id(clock),
    ensures
        r == le32_spec(resp.value_buf@, 4),
{
    read_le32(resp.value_buf.as_slice(), 4)
}

/// Maximum rate of `clock` out of a completed maximum-rate response.
pub fn rpi_clock_max_hz_get(clock: RpiClockType, resp: &MailBoxMsg) -> (r: u32)
    requires
        resp.tag_id == MBOX_TAG_CLOCK_GET_MAX,
        resp.value_buf@.len() == 8,
        le32_spec(resp.value_buf@, 0) == clock_id(clock),
    ensures
        r == le32_spec(resp.value_buf@, 4),
{
    read_le32(resp.value_buf.as_slice(), 4)
}

/// The eight-byte request value of a set-clock-rate query: the clock
/// id followed by the rate asked for.
pub fn clock_set_request_value(clock: RpiClockType, hz: u32) -> (r: Vec<u8>)
    ensures
        r@.len() == 8,
        le32_spec(r@, 0) == clock_id(clock),
        le32_spec(r@, 4) == hz,
{
    let mut r = crate::wire::u32_le_bytes(clock.val());
    let mut tail = crate::wire::u32_le_bytes(hz);
    r.append(&mut tail);
    assert(le32_spec(r@, 0) == clock_id(clock));
    r
}

/// Rate granted by a completed set-clock-rate response: the second
/// word, after checking that the first echoes the clock asked about.
pub fn rpi_clock_hz_set(clock: RpiClockType, resp: &MailBoxMsg) -> (r: u32)
    requires
        resp.tag_id == MBOX_TAG_CLOCK_SET_RATE,
        resp.value_buf@.len() == 12,
        le32_spec(resp.value_buf@, 0) == clock_id(clock),
    ensures
        r == le32_spec(resp.value_buf@, 4),
{
    read_le32(resp.value_buf.as_slice(), 4)
}

/// Minimum rate of `clock` out of a completed minimum-rate response.
pub fn rpi_clock_min_hz_get(clock: RpiClockType, resp: &MailBoxMsg) -> (r: u32)
    requires
        resp.tag_id == MBOX_TAG_CLOCK_GET_MIN,
        resp.value_buf@.len() == 8,
        le32_spec(resp.value_buf@, 0) == clock_id(clock),
    ensures
        r == le32_spec(resp.value_buf@, 4),
{
    read_le32(resp.value_buf.as_slice(), 4)
}

} // verus!
