use rpi_kernel::driver::{Driver, DriverDescriptor, DriverManager};
use rpi_kernel::exception::{current_el, has_fault_addr, PrivilegeLevel};
use rpi_kernel::gpio::{map_uart, Function, GPIODriver, Resistor, GPIO_NUM_REGS};
use rpi_kernel::log::{BufLogger, LogLevel};
use rpi_kernel::map::{GPIO_START, UART0_START};
use rpi_kernel::mmio::{read, read_bits, MmioBank};
use rpi_kernel::sync::NullLock;
use rpi_kernel::time::{
    duration_of, max_duration, resolution, spin_for, timer_value_of, uptime, Duration, Timer,
    TimerValue,
};
use rpi_kernel::uart_driver::UARTDriver;

#[test]
fn mmio_read_write_roundtrip() {
    let mut bank = MmioBank::new_zeroed(0x1000, 4);
    assert_eq!(read(&bank, 0x1008), 0);
    rpi_kernel::mmio::write(&mut bank, 0x1008, 0xDEAD_BEEF);
    assert_eq!(read(&bank, 0x1008), 0xDEAD_BEEF);
    assert_eq!(read(&bank, 0x1000), 0);
}

#[test]
fn mmio_read_bits_extracts_fields() {
    let mut bank = MmioBank::new_zeroed(0x1000, 1);
    rpi_kernel::mmio::write(&mut bank, 0x1000, 0b1011_0100);
    assert_eq!(read_bits(&bank, 0x1000, 2, 3), 0b101);
    assert_eq!(read_bits(&bank, 0x1000, 4, 4), 0b1011);
    assert_eq!(read_bits(&bank, 0x1000, 7, 1), 1);
    // a zero-width field is empty
    assert_eq!(read_bits(&bank, 0x1000, 2, 0), 0);
}

#[test]
fn gpio_map_uart_register_values() {
    let mut bank = MmioBank::new_zeroed(GPIO_START, GPIO_NUM_REGS);
    map_uart(&mut bank);
    // pins 14 and 15 in function-select register 1, three bits each, set
    // to alternate function 0 (0b100)
    assert_eq!(read(&bank, GPIO_START + 4), (0b100 << 12) | (0b100 << 15));
    // pull-up (0b01) in the first pull register, two bits per pin
    assert_eq!(read(&bank, GPIO_START + 0xE4), (0b01 << 28) | (0b01 << 30));
}

#[test]
fn gpio_driver_set_clear_function() {
    let mut bank = MmioBank::new_zeroed(GPIO_START, GPIO_NUM_REGS);
    let driver = GPIODriver::new(GPIO_START);
    driver.function(&mut bank, 3, Function::Output);
    assert_eq!(read(&bank, GPIO_START), 0b001 << 9);
    driver.resistor(&mut bank, 3, Resistor::Down);
    assert_eq!(read(&bank, GPIO_START + 0xE4), 0b10 << 6);
    driver.set(&mut bank, 3);
    assert_eq!(read(&bank, GPIO_START + 0x1C), 1 << 3);
    driver.clear(&mut bank, 3);
    assert_eq!(read(&bank, GPIO_START + 0x28), 1 << 3);
}

#[test]
fn uart_free_functions_program_registers() {
    let mut bank = MmioBank::new_zeroed(UART0_START, rpi_kernel::uart::UART_NUM_REGS);
    rpi_kernel::uart::init(&mut bank);
    // control register: enabled, transmit and receive on
    assert_eq!(read(&bank, UART0_START + 0x30), 0x301);
    // line control: FIFOs on, 8-bit words
    assert_eq!(read(&bank, UART0_START + 0x2C), 0x70);
    // baud divisors for 921600
    assert_eq!(read(&bank, UART0_START + 0x24), 3);
    assert_eq!(read(&bank, UART0_START + 0x28), 16);
}

#[test]
fn uart_free_read_write_char() {
    let mut bank = MmioBank::new_zeroed(UART0_START, rpi_kernel::uart::UART_NUM_REGS);
    // flag register zero: transmit has space, receive has data
    rpi_kernel::uart::write_char(&mut bank, 'A');
    assert_eq!(read(&bank, UART0_START), 65);
    assert_eq!(rpi_kernel::uart::read_char(&bank), Some('A'));

    // a received carriage return is mapped to newline
    rpi_kernel::mmio::write(&mut bank, UART0_START, 13);
    assert_eq!(rpi_kernel::uart::read_char_blocking(&bank), '\n');

    // an empty receive FIFO reads nothing
    rpi_kernel::mmio::write(&mut bank, UART0_START + 0x18, 1 << 4);
    assert_eq!(rpi_kernel::uart::read_char(&bank), None);

    rpi_kernel::mmio::write(&mut bank, UART0_START + 0x18, 0);
    rpi_kernel::uart::write_str(&mut bank, "hi");
    assert_eq!(read(&bank, UART0_START), 'i' as u32);
    rpi_kernel::uart::flush(&bank);
}

#[test]
fn uart_driver_transmit_and_receive() {
    let mut d = UARTDriver::new(UART0_START);
    d.write_byte(0x41);
    d.write_str("bc");
    assert_eq!(d.transmitted().as_slice(), b"Abc");

    d.receive_byte(0x31);
    d.receive_byte(0x32);
    assert_eq!(d.read(), Some(0x31));
    assert_eq!(d.read_blocking(), 0x32);
    assert_eq!(d.read(), None);
}

#[test]
fn uart_driver_utf8_round_trip() {
    let mut d = UARTDriver::new(UART0_START);
    d.write_char('é');
    d.write_char('€');
    d.write_char('A');
    assert_eq!(d.transmitted().as_slice(), "é€A".as_bytes());

    for b in "é€A".bytes() {
        d.receive_byte(b);
    }
    assert_eq!(d.read_char(), Some('é'));
    assert_eq!(d.read_char_blocking(), '€');
    assert_eq!(d.read_char(), Some('A'));
    assert_eq!(d.read_char(), None);
}

#[test]
fn uart_driver_maps_carriage_return() {
    let mut d = UARTDriver::new(UART0_START);
    d.receive_byte(b'\r');
    assert_eq!(d.read_char_blocking(), '\n');
}

#[test]
fn uart_driver_malformed_utf8_is_refused() {
    // a lone continuation byte: four bytes are consumed, nothing decodes
    let mut d = UARTDriver::new(UART0_START);
    for b in [0xA9, 0x41, 0x42, 0x43, 0x44] {
        d.receive_byte(b);
    }
    assert_eq!(d.read_char(), None);
    // the bytes after the failed attempt are still there
    assert_eq!(d.read_char(), Some('D'));

    // a valid lead followed by a non-continuation byte: same
    let mut d = UARTDriver::new(UART0_START);
    for b in [0xC3, 0x41, 0x42, 0x43] {
        d.receive_byte(b);
    }
    assert_eq!(d.read_char(), None);
    assert_eq!(d.read_char(), None);

    // the blocking variant yields the replacement character instead
    let mut d = UARTDriver::new(UART0_START);
    for b in [0xED, 0xA0, 0x80, 0x41] {
        d.receive_byte(b);
    }
    // a surrogate encoding is not a scalar value
    assert_eq!(d.read_char_blocking(), '\u{FFFD}');

    // an overlong encoding is rejected too
    let mut d = UARTDriver::new(UART0_START);
    for b in [0xC0, 0x80, 0x41, 0x42] {
        d.receive_byte(b);
    }
    assert_eq!(d.read_char(), None);
}

#[test]
fn uart_driver_read_char_ready() {
    let mut d = UARTDriver::new(UART0_START);
    assert!(!d.read_char_ready());
    d.receive_byte(b'A');
    assert!(d.read_char_ready());
    assert_eq!(d.read_char(), Some('A'));

    // a two-byte sequence is not ready until both bytes arrived
    d.receive_byte(0xC3);
    assert!(!d.read_char_ready());
    d.receive_byte(0xA9);
    assert!(d.read_char_ready());
    assert_eq!(d.read_char(), Some('é'));

    // a malformed attempt is ready once four bytes are there
    d.receive_byte(0xA9);
    d.receive_byte(0x41);
    d.receive_byte(0x42);
    assert!(!d.read_char_ready());
    d.receive_byte(0x43);
    assert!(d.read_char_ready());
    assert_eq!(d.read_char(), None);
}

#[test]
fn uart_driver_init_programs_registers() {
    let mut d = UARTDriver::new(UART0_START);
    assert_eq!(Driver::init(&mut d), Ok(()));
    d.flush();
}

#[test]
fn logger_buffers_until_writer_attached() {
    let mut logger: BufLogger<UARTDriver> = BufLogger::new();
    logger.write("early\n");
    logger.set_writer(UARTDriver::new(UART0_START));
    logger.log(LogLevel::Info, "hello");
    logger.flush();
    let sent = logger.writer_ref().as_ref().unwrap().transmitted();
    assert_eq!(sent.as_slice(), b"early\nInfo: hello\n");
}

#[test]
fn logger_flushes_complete_lines() {
    let mut logger: BufLogger<UARTDriver> = BufLogger::new();
    logger.set_writer(UARTDriver::new(UART0_START));
    logger.write("line one\npartial");
    // the complete line went out; the partial line waits
    {
        let sent = logger.writer_ref().as_ref().unwrap().transmitted();
        assert_eq!(sent.as_slice(), b"line one\n");
    }
    logger.flush();
    let sent = logger.writer_ref().as_ref().unwrap().transmitted();
    assert_eq!(sent.as_slice(), b"line one\npartial");
}

#[test]
fn log_levels_have_labels() {
    assert_eq!(LogLevel::Info.as_str(), "Info");
    assert_eq!(LogLevel::Warn.as_str(), "Warn");
    assert_eq!(LogLevel::Error.as_str(), "Error");
}

#[test]
fn driver_manager_registers_in_order() {
    let mut manager: DriverManager<2> = DriverManager::new();
    assert_eq!(manager.num_registered(), 0);
    manager.register_driver(DriverDescriptor { name: "GPIO" });
    manager.register_driver(DriverDescriptor { name: "UART" });
    assert_eq!(manager.num_registered(), 2);
}

#[test]
fn null_lock_hands_out_data() {
    let lock = NullLock::new(7u32);
    assert_eq!(*lock.get(), 7);
}

#[test]
fn privilege_level_decoding() {
    assert_eq!(current_el(0b0000), PrivilegeLevel::Application);
    assert_eq!(current_el(0b0100), PrivilegeLevel::Kernel);
    assert_eq!(current_el(0b1000), PrivilegeLevel::Hypervisor);
    assert_eq!(current_el(0b1100), PrivilegeLevel::Unknown);
}

#[test]
fn fault_address_classes() {
    // data abort from the current exception level
    assert!(has_fault_addr(0b100101 << 26));
    // instruction abort from a lower level
    assert!(has_fault_addr(0b100000 << 26));
    // an SVC is not a faulting class
    assert!(!has_fault_addr(0b010101 << 26));
}

#[test]
fn timer_conversions() {
    // 1 MHz: 2.5 million ticks are 2 s and 500 ms
    let d = duration_of(TimerValue(2_500_000), 1_000_000);
    assert_eq!(d, Duration::new(2, 500_000_000));

    let t = Timer::new(1_000_000, 0);
    assert_eq!(resolution(&t), Duration::new(0, 1_000));
    assert_eq!(uptime(&t), Duration::new(0, 0));
    let m = max_duration(&t);
    assert_eq!(m.secs, u64::MAX / 1_000_000);

    assert_eq!(
        timer_value_of(Duration::new(2, 500_000_000), 1_000_000),
        Ok(TimerValue(2_500_000))
    );
    assert_eq!(
        timer_value_of(Duration::new(0, 1), 1_000_000),
        Err("Duration too short")
    );
}

#[test]
fn timer_spin_advances_count() {
    let mut t = Timer::new(1_000_000, 100);
    assert_eq!(spin_for(&mut t, Duration::new(1, 0)), Ok(()));
    assert_eq!(t.count, 100 + 1_000_000);

    // a span too short to express is refused and leaves the counter alone
    let mut t = Timer::new(1_000_000, 100);
    assert_eq!(spin_for(&mut t, Duration::new(0, 1)), Err("Duration too short"));
    assert_eq!(t.count, 100);
}

#[test]
fn duration_helpers() {
    assert_eq!(Duration::from_secs(3), Duration::new(3, 0));
    assert_eq!(Duration::from_nanos(2_500_000_000), Duration::new(2, 500_000_000));
    assert!(Duration::new(1, 0).lt(&Duration::new(1, 1)));
    assert!(!Duration::new(2, 0).lt(&Duration::new(1, 999_999_999)));
}

#[test]
fn timer_rejects_overlong_duration() {
    // at 1 MHz the counter cannot span u64::MAX seconds
    assert_eq!(
        timer_value_of(Duration::new(u64::MAX, 0), 1_000_000),
        Err("Duration too long")
    );
}
