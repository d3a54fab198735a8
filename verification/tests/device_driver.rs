use kernel_platform::bsp::device_driver::bcm::bcm2xxx_pl011_uart::{
    BlockingMode, PL011UartInner, ReadStep,
};
use kernel_platform::bsp::raspberrypi::console::QEMUOutputInner;

#[test]
fn uart_starts_with_counts_at_zero() {
    let uart = PL011UartInner::new();
    assert_eq!(uart.chars_written(), 0);
    assert_eq!(uart.chars_read(), 0);
}

#[test]
fn uart_read_waits_only_when_blocking() {
    assert_eq!(PL011UartInner::read_step(BlockingMode::Blocking, true), ReadStep::Wait);
    assert_eq!(PL011UartInner::read_step(BlockingMode::NonBlocking, true), ReadStep::GiveUp);
    assert_eq!(PL011UartInner::read_step(BlockingMode::Blocking, false), ReadStep::Take);
    assert_eq!(PL011UartInner::read_step(BlockingMode::NonBlocking, false), ReadStep::Take);
}

#[test]
fn uart_turns_carriage_return_into_newline() {
    let mut uart = PL011UartInner::new();
    assert_eq!(uart.read_char_converting(0x41), 'A');
    assert_eq!(uart.read_char_converting(0x0d), '\n');
    assert_eq!(uart.read_char_converting(0x0a), '\n');
    assert_eq!(uart.read_char_converting(0x20), ' ');
    assert_eq!(uart.chars_read(), 4);
    assert_eq!(uart.chars_written(), 0);
}

#[test]
fn uart_reads_the_low_byte_of_the_data_word() {
    let mut uart = PL011UartInner::new();
    // The bits above the character are error flags.
    assert_eq!(uart.read_char_converting(0x0000_0141), 'A');
    assert_eq!(uart.read_char_converting(0xffff_ff0d), '\n');
    assert_eq!(uart.read_char_converting(0x0000_00ff), '\u{ff}');
    assert_eq!(uart.read_char_converting(0), '\0');
    assert_eq!(uart.chars_read(), 4);
}

#[test]
fn uart_writes_the_code_of_the_character() {
    let mut uart = PL011UartInner::new();
    assert_eq!(uart.write_char('A'), 0x41);
    assert_eq!(uart.write_char('\n'), 0x0a);
    assert_eq!(uart.write_char('\u{20ac}'), 0x20ac);
    assert_eq!(uart.chars_written(), 3);
    assert_eq!(uart.chars_read(), 0);
}

#[test]
fn uart_writes_a_string_word_by_word() {
    let mut uart = PL011UartInner::new();
    assert_eq!(uart.write_str("ok\n"), [0x6f, 0x6b, 0x0a]);
    assert_eq!(uart.chars_written(), 3);
    assert_eq!(uart.write_str(""), []);
    assert_eq!(uart.write_str("\u{20ac}1"), [0x20ac, 0x31]);
    assert_eq!(uart.chars_written(), 5);
    assert_eq!(uart.chars_read(), 0);
}

#[test]
fn emulator_output_starts_with_count_at_zero() {
    assert_eq!(QEMUOutputInner::new().chars_written(), 0);
}

#[test]
fn emulator_output_sends_the_low_byte() {
    let mut output = QEMUOutputInner::new();
    assert_eq!(output.write_char('A'), 0x41);
    assert_eq!(output.write_char('\n'), 0x0a);
    assert_eq!(output.write_char('\u{e9}'), 0xe9);
    assert_eq!(output.write_char('\u{20ac}'), 0xac);
    assert_eq!(output.chars_written(), 4);
}

#[test]
fn emulator_output_puts_carriage_return_before_newline() {
    let mut output = QEMUOutputInner::new();
    assert_eq!(output.write_str("a\nb"), [0x61, 0x0d, 0x0a, 0x62]);
    assert_eq!(output.chars_written(), 4);
    assert_eq!(output.write_str("\n\n"), [0x0d, 0x0a, 0x0d, 0x0a]);
    assert_eq!(output.chars_written(), 8);
    assert_eq!(output.write_str(""), []);
    assert_eq!(output.write_str("\r"), [0x0d]);
    assert_eq!(output.write_str("no newline"), "no newline".as_bytes());
    assert_eq!(output.chars_written(), 19);
}
