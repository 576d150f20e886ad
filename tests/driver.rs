use mini_uart::init::{
    baud_divisor, enable_bits, init_sequence, InitStep, BAUD_DIVISOR, BAUD_RATE, CNTL_RX_TX,
    LCR_EIGHT_BIT, SYSTEM_CLOCK_HZ,
};
use mini_uart::line_status::{has_mask, DATA_READY, TX_AVAILABLE};
use mini_uart::registers::{
    access, aux_enables_address, field_address, field_offset, readable, writable, Access, Field,
};
use mini_uart::sim::{run_read, run_read_byte, run_wait_for_byte, run_write_byte};
use mini_uart::text::normalize_line_endings;
use mini_uart::uart::{deadline, received_byte, MiniUart, RxStep, TimedOut, TxStep, WaitStep};

const PI_IO_BASE: usize = 0x3F00_0000;

#[test]
fn text_adapter_inserts_cr_before_lf() {
    let uart = MiniUart::new(PI_IO_BASE).0;
    assert_eq!(uart.write_str("hi\n"), vec![b'h', b'i', b'\r', b'\n']);
}

#[test]
fn text_adapter_passes_other_bytes() {
    let uart = MiniUart::new(PI_IO_BASE).0;
    assert_eq!(uart.write_str(""), Vec::<u8>::new());
    assert_eq!(uart.write_str("abc"), b"abc".to_vec());
    assert_eq!(uart.write_str("\n\na\rb\n"), b"\r\n\r\na\rb\r\n".to_vec());
    assert_eq!(normalize_line_endings(&[0, 10, 255]), vec![0, 13, 10, 255]);
}

#[test]
fn transmit_spins_until_space() {
    let uart = MiniUart::new(PI_IO_BASE).0;
    let reads = vec![0, 0, 0, 0, 0, TX_AVAILABLE];
    let run = run_write_byte(&uart, &reads, b'x');
    assert_eq!(run.polls, 5);
    assert_eq!(run.written, Some(b'x' as u32));
}

#[test]
fn transmit_never_drains() {
    let uart = MiniUart::new(PI_IO_BASE).0;
    let run = run_write_byte(&uart, &vec![DATA_READY, 0, 0xDF], 7);
    assert_eq!(run.polls, 3);
    assert_eq!(run.written, None);
}

#[test]
fn transmit_step_decodes_bit_five() {
    let uart = MiniUart::new(PI_IO_BASE).0;
    assert_eq!(uart.write_byte(0x20, 0x41), TxStep::Write(0x41));
    assert_eq!(uart.write_byte(0xFF, 0x41), TxStep::Write(0x41));
    assert_eq!(uart.write_byte(0x1F, 0x41), TxStep::Poll);
}

#[test]
fn ready_then_read_without_polling() {
    let uart = MiniUart::new(PI_IO_BASE).0;
    let lsr = 0x61;
    assert!(uart.has_byte(lsr));
    assert_eq!(uart.read_byte(lsr), RxStep::Read);
    let run = run_read_byte(&uart, &vec![lsr, 0, 0], 0x1234_5678);
    assert_eq!(run.polls, 0);
    assert_eq!(run.byte, Some(0x78));
}

#[test]
fn receive_polls_until_ready() {
    let uart = MiniUart::new(PI_IO_BASE).0;
    assert!(!uart.has_byte(0x20));
    assert_eq!(uart.read_byte(0x20), RxStep::Poll);
    let run = run_read_byte(&uart, &vec![0x20, 0, DATA_READY], 0x1FF);
    assert_eq!(run.polls, 2);
    assert_eq!(run.byte, Some(0xFF));
    let none = run_read_byte(&uart, &vec![0, 0], 5);
    assert_eq!(none, mini_uart::sim::RxRun { polls: 2, byte: None });
}

#[test]
fn receive_ignores_timeout() {
    let mut uart = MiniUart::new(PI_IO_BASE).0;
    uart.set_read_timeout(1);
    assert_eq!(uart.read_byte(0), RxStep::Poll);
}

#[test]
fn low_byte_of_data_field() {
    assert_eq!(received_byte(0xABCD), 0xCD);
    assert_eq!(received_byte(0x41), 0x41);
}

#[test]
fn timeout_scenario_a() {
    let mut uart = MiniUart::new(PI_IO_BASE).0;
    uart.set_read_timeout(100);
    let polls: Vec<(u32, u64)> = (0..=150u64).map(|ms| (0u32, ms * 1000)).collect();
    let run = run_wait_for_byte(&uart, 0, &polls);
    assert_eq!(run.step, WaitStep::TimedOut);
    assert_eq!(run.polls, 101);
}

#[test]
fn no_timeout_never_times_out() {
    let uart = MiniUart::new(PI_IO_BASE).0;
    assert_eq!(uart.read_timeout(), None);
    let mut polls: Vec<(u32, u64)> = (0..50u64).map(|i| (0u32, i * 1_000_000_000)).collect();
    let run = run_wait_for_byte(&uart, 0, &polls);
    assert_eq!(run.step, WaitStep::Poll);
    assert_eq!(run.polls, 50);
    polls.push((DATA_READY, u64::MAX));
    let run = run_wait_for_byte(&uart, 0, &polls);
    assert_eq!(run.step, WaitStep::Ready);
    assert_eq!(run.polls, 50);
    assert_eq!(uart.wait_for_byte(0, 0, u64::MAX), WaitStep::Poll);
}

#[test]
fn ready_before_timeout_succeeds() {
    let mut uart = MiniUart::new(PI_IO_BASE).0;
    uart.set_read_timeout(10);
    assert_eq!(uart.read_timeout(), Some(10));
    let polls = vec![(0, 1_000), (0, 5_000), (DATA_READY, 9_000)];
    let run = run_wait_for_byte(&uart, 1_000, &polls);
    assert_eq!(run.step, WaitStep::Ready);
    assert_eq!(run.polls, 2);
}

#[test]
fn deadline_boundary_is_strict() {
    let mut uart = MiniUart::new(PI_IO_BASE).0;
    uart.set_read_timeout(10);
    assert_eq!(uart.wait_for_byte(1_000, 0, 11_000), WaitStep::Poll);
    assert_eq!(uart.wait_for_byte(1_000, 0, 11_001), WaitStep::TimedOut);
    assert_eq!(uart.wait_for_byte(1_000, DATA_READY, 99_999), WaitStep::Ready);
}

#[test]
fn timeout_replaced() {
    let mut uart = MiniUart::new(PI_IO_BASE).0;
    uart.set_read_timeout(10);
    uart.set_read_timeout(0);
    assert_eq!(uart.read_timeout(), Some(0));
    assert_eq!(uart.wait_for_byte(5, 0, 5), WaitStep::Poll);
    assert_eq!(uart.wait_for_byte(5, 0, 6), WaitStep::TimedOut);
}

#[test]
fn deadline_saturates() {
    assert_eq!(deadline(1_000, 10), 11_000);
    assert_eq!(deadline(u64::MAX - 5, 1), u64::MAX);
    assert_eq!(deadline(u64::MAX, u32::MAX), u64::MAX);
    let mut uart = MiniUart::new(PI_IO_BASE).0;
    uart.set_read_timeout(u32::MAX);
    assert_eq!(uart.wait_for_byte(u64::MAX - 1, 0, u64::MAX), WaitStep::Poll);
}

#[test]
fn buffered_read_scenario_d() {
    let uart = MiniUart::new(PI_IO_BASE).0;
    let mut buf = vec![0xEEu8; 10];
    let r = run_read(&uart, Ok(()), &vec![1, 2, 3], &mut buf);
    assert_eq!(r, Ok(3));
    assert_eq!(buf, vec![1, 2, 3, 0xEE, 0xEE, 0xEE, 0xEE, 0xEE, 0xEE, 0xEE]);
}

#[test]
fn buffered_read_fills_buffer() {
    let uart = MiniUart::new(PI_IO_BASE).0;
    let mut buf = vec![0u8; 2];
    assert_eq!(run_read(&uart, Ok(()), &vec![9, 8, 7], &mut buf), Ok(2));
    assert_eq!(buf, vec![9, 8]);
}

#[test]
fn buffered_read_times_out() {
    let uart = MiniUart::new(PI_IO_BASE).0;
    let mut buf = vec![4u8; 3];
    assert_eq!(run_read(&uart, Err(TimedOut), &vec![1], &mut buf), Err(TimedOut));
    assert_eq!(buf, vec![4, 4, 4]);
}

#[test]
fn read_more_stops_when_idle_or_full() {
    let uart = MiniUart::new(PI_IO_BASE).0;
    assert!(uart.read_more(DATA_READY, 0, 1));
    assert!(!uart.read_more(0, 0, 1));
    assert!(!uart.read_more(DATA_READY, 1, 1));
}

#[test]
fn line_status_masks() {
    assert!(has_mask(0x21, DATA_READY));
    assert!(has_mask(0x21, TX_AVAILABLE));
    assert!(!has_mask(0x20, DATA_READY));
    assert!(has_mask(0x7, 0x5));
    assert!(!has_mask(0x4, 0x5));
}

#[test]
fn new_handle_carries_base_and_plan() {
    let (uart, steps) = MiniUart::new(PI_IO_BASE);
    assert_eq!(uart.read_timeout(), None);
    assert_eq!(uart.io_base(), PI_IO_BASE);
    assert_eq!(steps, init_sequence());
    assert_eq!(uart.register_address(Field::Io), Some(0x3F21_5040));
    assert_eq!(uart.register_address(Field::Baud), Some(0x3F21_5068));
    let mut uart = uart;
    uart.set_read_timeout(3);
    assert_eq!(uart.io_base(), PI_IO_BASE);
    let (far, _) = MiniUart::new(usize::MAX);
    assert_eq!(far.register_address(Field::Io), None);
}

#[test]
fn init_plan_order() {
    assert_eq!(
        init_sequence(),
        vec![
            InitStep::EnableAux(1),
            InitStep::Write(Field::Lcr, 3),
            InitStep::Write(Field::Baud, 270),
            InitStep::PinAlt(14, 5),
            InitStep::PinAlt(15, 5),
            InitStep::Write(Field::Cntl, 3),
        ]
    );
    assert_eq!((LCR_EIGHT_BIT, CNTL_RX_TX, BAUD_DIVISOR), (3, 3, 270));
}

#[test]
fn baud_divisor_formula() {
    assert_eq!(baud_divisor(SYSTEM_CLOCK_HZ, BAUD_RATE), Some(270));
    assert_eq!(baud_divisor(250_000_000, 9_600), Some(3254));
    assert_eq!(baud_divisor(16, 2), Some(0));
    assert_eq!(baud_divisor(15, 2), None);
    assert_eq!(baud_divisor(100, 0), None);
    assert_eq!(baud_divisor(u64::MAX, u64::MAX), None);
}

#[test]
fn enable_bit_is_additive() {
    assert_eq!(enable_bits(0, 1), 1);
    assert_eq!(enable_bits(0b110, 1), 0b111);
    assert_eq!(enable_bits(0xFF, 1), 0xFF);
    assert_eq!(enable_bits(0b1000_0001, 0b10), 0b1000_0011);
}

#[test]
fn register_layout() {
    assert_eq!(field_offset(Field::Io), 0);
    assert_eq!(field_offset(Field::Lsr), 0x14);
    assert_eq!(field_offset(Field::Cntl), 0x20);
    assert_eq!(field_offset(Field::Baud), 0x28);
    assert_eq!(access(Field::Msr), Access::ReadOnly);
    assert_eq!(access(Field::Scratch), Access::Reserved);
    assert!(!readable(Field::Scratch));
    assert!(readable(Field::Stat));
    assert!(!writable(Field::Stat));
    assert!(writable(Field::Io));
    assert_eq!(field_address(0x3F00_0000, Field::Lsr), Some(0x3F21_5054));
    assert_eq!(field_address(usize::MAX, Field::Io), None);
    assert_eq!(aux_enables_address(0x3F00_0000), Some(0x3F21_5004));
    assert_eq!(aux_enables_address(usize::MAX), None);
}
