use crab_pi::cache::{caches_disable, caches_enable, is_caches_enabled};
use crab_pi::gpio::{
    gpio_event_clear, gpio_event_detected, gpio_event_kind, gpio_int_falling_edge,
    gpio_int_rising_edge, gpio_read, gpio_set_function, gpio_set_input, gpio_set_off,
    gpio_set_on, gpio_set_output, gpio_write, GPIOEvent, GpioFunc, RegWrite, GPIO_CLR0,
    GPIO_CLR1, GPIO_EDS0, GPIO_FEN0, GPIO_FSEL0, GPIO_REN0, GPIO_SET0, GPIO_SET1,
};
use crab_pi::mailbox::{
    clock_set_request_value, mbox_get_memory, mbox_get_model, mbox_get_revision,
    mbox_get_serial_num, mbox_get_temperature, rpi_clock_current_hz_get, rpi_clock_hz_set,
    rpi_clock_max_hz_get, rpi_clock_min_hz_get, MailBoxMsg, RpiClockType, MBOX_RESP_SUCCESS,
    MBOX_TAG_CLOCK_GET_MAX, MBOX_TAG_CLOCK_GET_MIN, MBOX_TAG_CLOCK_GET_RATE,
    MBOX_TAG_CLOCK_SET_RATE, MBOX_TAG_GET_MEMORY, MBOX_TAG_GET_MODEL, MBOX_TAG_GET_REVISION,
    MBOX_TAG_GET_SERIAL_NUM, MBOX_TAG_GET_TEMPERATURE,
};
use crab_pi::sw_uart::{baud_to_cycles, baud_to_usec, SwUart};
use crab_pi::timer::{clear_irq, timer_control_value, timer_init, ArmTimerCtrl, ARM_TIMER_CONTROL, ARM_TIMER_IRQ, ARM_TIMER_IRQ_CLEAR, ARM_TIMER_LOAD, IRQ_ENABLE_BASIC};
use crab_pi::vector_base::{vector_base_check, vector_base_reset, vector_base_set};
use crab_pi::wire::{read_le32, u32_le_bytes};

#[test]
fn gpio_set_on_low_bank() {
    assert_eq!(
        gpio_set_on(20),
        RegWrite { addr: GPIO_SET0, val: 1 << 20 }
    );
}

#[test]
fn gpio_set_on_high_bank() {
    assert_eq!(
        gpio_set_on(47),
        RegWrite { addr: GPIO_SET1, val: 1 << 15 }
    );
}

#[test]
fn gpio_set_off_both_banks() {
    assert_eq!(
        gpio_set_off(0),
        RegWrite { addr: GPIO_CLR0, val: 1 }
    );
    assert_eq!(
        gpio_set_off(53),
        RegWrite { addr: GPIO_CLR1, val: 1 << 21 }
    );
}

#[test]
fn gpio_write_picks_set_or_clear() {
    assert_eq!(gpio_write(5, true), gpio_set_on(5));
    assert_eq!(gpio_write(5, false), gpio_set_off(5));
}

#[test]
fn gpio_function_select_field() {
    // pin 20 lives in FSEL2 at field offset 0
    let w = gpio_set_output(20, 0xffff_ffff);
    assert_eq!(w.addr, GPIO_FSEL0 + 8);
    assert_eq!(w.val, (0xffff_ffff & !7) | 1);

    // pin 14 to ALT5: field offset 12 of FSEL1
    let w = gpio_set_function(14, GpioFunc::Alt5, 0);
    assert_eq!(w.addr, GPIO_FSEL0 + 4);
    assert_eq!(w.val, 0b010 << 12);

    // input clears the field
    let w = gpio_set_input(21, 0xffff_ffff);
    assert_eq!(w.addr, GPIO_FSEL0 + 8);
    assert_eq!(w.val, 0xffff_ffff & !(7 << 3));
}

#[test]
fn gpio_read_decodes_level_bits() {
    assert!(gpio_read(3, 1 << 3));
    assert!(!gpio_read(3, !(1 << 3)));
    // pin 40 reads bit 8 of LEV1
    assert!(gpio_read(40, 1 << 8));
    assert!(!gpio_read(40, 0));
}

#[test]
fn gpio_events() {
    assert!(gpio_event_detected(7, 1 << 7));
    assert!(!gpio_event_detected(7, 0));
    assert_eq!(gpio_event_kind(true), GPIOEvent::RisingEdge);
    assert_eq!(gpio_event_kind(false), GPIOEvent::FallingEdge);
}

#[test]
fn cache_bits() {
    assert_eq!(caches_enable(0), 0x1800);
    assert_eq!(caches_enable(0x20), 0x1820);
    assert_eq!(caches_disable(0xffff_ffff), 0xffff_e7ff);
    assert!(is_caches_enabled(0x1800));
    assert!(!is_caches_enabled(0x1000));
    assert!(!is_caches_enabled(0x800));
    assert!(!is_caches_enabled(0));
}

#[test]
fn vector_base_rules() {
    assert!(vector_base_check(0x8000));
    assert!(!vector_base_check(0));
    assert!(!vector_base_check(0x8001));
    assert!(!vector_base_check(0x8010));

    // installing over a zero register writes the base
    assert_eq!(vector_base_set(0x8000, 0), Some(0x8000));
    // installing the base already present is a no-op
    assert_eq!(vector_base_set(0x8000, 0x8000), None);

    assert_eq!(vector_base_reset(0x4020, 0x8000), (0x4020, 0x8000));
}

#[test]
fn sw_uart_timing() {
    assert_eq!(baud_to_cycles(115200), 6076);
    assert_eq!(baud_to_usec(115200), 8);
    let uart = SwUart::new(20, 21, 115200);
    assert_eq!(uart.get_cycles_per_bit(), 6076);
}

#[test]
fn sw_uart_waveform() {
    let uart = SwUart::new(20, 21, 115200);
    let levels = uart.put_8(0b0101_0101);
    assert_eq!(
        levels,
        vec![
            false, // start bit
            true, false, true, false, true, false, true, false, // data, lowest first
            true, // stop bit
        ]
    );

    let zeros = uart.put_8(0);
    assert_eq!(zeros[0], false);
    assert!(zeros[1..9].iter().all(|l| !l));
    assert_eq!(zeros[9], true);
}

fn response(tag: u32, n: usize, words: &[u32]) -> MailBoxMsg {
    let mut msg = MailBoxMsg::new(tag, n);
    let mut bytes: Vec<u8> = Vec::new();
    for w in words {
        bytes.extend_from_slice(&u32_le_bytes(*w));
    }
    msg.set_value(&bytes);
    msg.buf_req_resp_code = MBOX_RESP_SUCCESS;
    msg
}

#[test]
fn mailbox_message_sizes() {
    let msg = MailBoxMsg::new(MBOX_TAG_GET_MODEL, 4);
    assert_eq!(msg.buf_size, 32);
    assert_eq!(msg.tag_value_buffer_size, 4);
    assert_eq!(msg.value_buf, vec![0u8; 4]);
    assert_eq!(msg.buf_req_resp_code, 0);
    assert_eq!(msg.tag_req_resp_code, 0);
    assert_eq!(msg.end_tag, 0);

    assert_eq!(MailBoxMsg::new(MBOX_TAG_GET_SERIAL_NUM, 8).buf_size, 32);
    assert_eq!(MailBoxMsg::new(0x0003_8002, 12).buf_size, 48);
}

#[test]
fn mailbox_set_and_get_value() {
    let mut msg = MailBoxMsg::new(MBOX_TAG_GET_SERIAL_NUM, 8);
    msg.set_value(&[1, 2, 3]);
    assert_eq!(msg.get_value(), &[1, 2, 3, 0, 0, 0, 0, 0]);
    assert!(!msg.response_ok());
    msg.buf_req_resp_code = MBOX_RESP_SUCCESS;
    assert!(msg.response_ok());
}

#[test]
fn mailbox_getters_decode_their_words() {
    let serial = response(MBOX_TAG_GET_SERIAL_NUM, 8, &[0x0123_4567, 0]);
    assert_eq!(mbox_get_serial_num(&serial), 0x0123_4567);

    let model = response(MBOX_TAG_GET_MODEL, 4, &[0xb03111]);
    assert_eq!(mbox_get_model(&model), 0xb03111);

    let rev = response(MBOX_TAG_GET_REVISION, 4, &[0x2]);
    assert_eq!(mbox_get_revision(&rev), 0x2);

    // base in the first word, size in the second
    let mem = response(MBOX_TAG_GET_MEMORY, 8, &[0, 0x2000_0000]);
    assert_eq!(mbox_get_memory(&mem), 0x2000_0000);

    let temp = response(MBOX_TAG_GET_TEMPERATURE, 8, &[0, 45_000]);
    assert_eq!(mbox_get_temperature(&temp), 45_000);
}

#[test]
fn mailbox_clock_getters_decode_their_words() {
    let cur = response(MBOX_TAG_CLOCK_GET_RATE, 8, &[0x3, 700_000_000]);
    assert_eq!(
        rpi_clock_current_hz_get(RpiClockType::Cpu, &cur),
        700_000_000
    );

    let max = response(MBOX_TAG_CLOCK_GET_MAX, 8, &[0x3, 1_000_000_000]);
    assert_eq!(
        rpi_clock_max_hz_get(RpiClockType::Cpu, &max),
        1_000_000_000
    );

    let min = response(MBOX_TAG_CLOCK_GET_MIN, 8, &[0x4, 250_000_000]);
    assert_eq!(
        rpi_clock_min_hz_get(RpiClockType::Core, &min),
        250_000_000
    );
}

#[test]
fn clock_ids() {
    assert_eq!(RpiClockType::Cpu.val(), 0x3);
    assert_eq!(RpiClockType::Core.val(), 0x4);
    assert_eq!(RpiClockType::Sdram.val(), 0x8);
    assert_eq!(RpiClockType::V3d.val(), 0x5);
}

#[test]
fn wire_round_trip() {
    let bytes = u32_le_bytes(0x0403_0201);
    assert_eq!(bytes, vec![1, 2, 3, 4]);
    assert_eq!(read_le32(&bytes, 0), 0x0403_0201);
    assert_eq!(read_le32(&[0xff, 0xff, 0xff, 0xff], 0), u32::MAX);
    assert_eq!(read_le32(&[9, 1, 0, 0, 0, 7], 1), 1);
}

#[test]
fn gpio_edge_interrupt_writes() {
    assert_eq!(
        gpio_int_rising_edge(7, 0x100),
        RegWrite { addr: GPIO_REN0, val: 0x100 | (1 << 7) }
    );
    assert_eq!(
        gpio_int_falling_edge(7, 0),
        RegWrite { addr: GPIO_FEN0, val: 1 << 7 }
    );
    assert_eq!(
        gpio_event_clear(12),
        RegWrite { addr: GPIO_EDS0, val: 1 << 12 }
    );
}

#[test]
fn timer_setup_writes() {
    assert_eq!(
        timer_control_value(16),
        ArmTimerCtrl::ARM_TIMER_CTRL_32BIT
            | ArmTimerCtrl::ARM_TIMER_CTRL_ENABLE
            | ArmTimerCtrl::ARM_TIMER_CTRL_INT_ENABLE
            | ArmTimerCtrl::ARM_TIMER_CTRL_PRESCALE_16
    );
    assert_eq!(timer_control_value(1), 0b1010_0010);
    assert_eq!(timer_control_value(256), 0b1010_1010);

    let writes = timer_init(16, 0x100);
    assert_eq!(
        writes,
        vec![
            RegWrite { addr: IRQ_ENABLE_BASIC, val: ARM_TIMER_IRQ },
            RegWrite { addr: ARM_TIMER_LOAD, val: 0x100 },
            RegWrite { addr: ARM_TIMER_CONTROL, val: 0b1010_0110 },
        ]
    );

    assert_eq!(clear_irq(), RegWrite { addr: ARM_TIMER_IRQ_CLEAR, val: 1 });
}

#[test]
fn clock_set_round_trip() {
    let value = clock_set_request_value(RpiClockType::Cpu, 1_000_000_000);
    assert_eq!(value.len(), 8);
    assert_eq!(read_le32(&value, 0), 0x3);
    assert_eq!(read_le32(&value, 4), 1_000_000_000);

    let mut resp = MailBoxMsg::new(MBOX_TAG_CLOCK_SET_RATE, 12);
    let mut bytes = clock_set_request_value(RpiClockType::Cpu, 999_999_000);
    bytes.extend_from_slice(&[0, 0, 0, 0]);
    resp.set_value(&bytes);
    resp.buf_req_resp_code = MBOX_RESP_SUCCESS;
    assert_eq!(rpi_clock_hz_set(RpiClockType::Cpu, &resp), 999_999_000);
}
