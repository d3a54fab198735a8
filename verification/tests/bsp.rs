use kernel_platform::bsp::raspberrypi::board_name;
use kernel_platform::bsp::raspberrypi::driver::{driver_gpio, driver_uart, init, post_init_uart};
use kernel_platform::console::interface::{All, Read, Statistics, Write};
use kernel_platform::console::{console, ActiveConsole, ConsoleRegistry};
use kernel_platform::driver::interface::DeviceDriver;
use kernel_platform::driver::{DeviceDriverDescriptor, DriverManager};

struct Named(&'static str);

impl DeviceDriver for Named {
    fn compatible(&self) -> &'static str {
        self.0
    }
}

#[derive(Clone, Copy)]
struct Uart(u32);

impl Write for Uart {
    fn write_char(&self, _c: char) {}

    fn write_fmt(&self, _args: &str) -> Result<(), &'static str> {
        Ok(())
    }

    fn flush(&self) {}
}

impl Read for Uart {
    fn clear_rx(&self) {}
}

impl Statistics for Uart {
    fn chars_written(&self) -> usize {
        self.0 as usize
    }
}

impl All for Uart {}

type Hook = fn() -> Result<(), &'static str>;

fn nothing_to_do() -> Result<(), &'static str> {
    Ok(())
}

fn fails() -> Result<(), &'static str> {
    Err("pins busy")
}

fn listing(manager: &mut DriverManager<Named, Hook>) -> Vec<&'static str> {
    manager.enumerate(Vec::new(), |mut seen: Vec<&'static str>, _, name| {
        seen.push(name);
        seen
    })
}

fn filled(count: usize) -> DriverManager<Named, Hook> {
    let mut manager = DriverManager::new();
    for _ in 0..count {
        manager.register_driver(DeviceDriverDescriptor::new(Named("other"), None)).unwrap();
    }
    manager
}

#[test]
fn board_is_named() {
    assert_eq!(board_name(), "Raspberry Pi 3");
}

#[test]
fn init_registers_gpio_then_uart() {
    let mut done = false;
    let mut manager = filled(0);
    let outcome = init(
        &mut done,
        &mut manager,
        Named("BCM GPIO"),
        nothing_to_do as Hook,
        Named("BCM PL011 UART"),
        nothing_to_do as Hook,
    );
    assert_eq!(outcome, Ok(()));
    assert!(done);
    assert_eq!(listing(&mut manager), ["BCM GPIO", "BCM PL011 UART"]);
    assert_eq!(manager.init_drivers(), Ok(()));
}

#[test]
fn init_is_refused_the_second_time() {
    let mut done = false;
    let mut manager = filled(0);
    let first = init(
        &mut done,
        &mut manager,
        Named("gpio"),
        nothing_to_do as Hook,
        Named("uart"),
        nothing_to_do as Hook,
    );
    assert_eq!(first, Ok(()));
    let second = init(
        &mut done,
        &mut manager,
        Named("gpio"),
        nothing_to_do as Hook,
        Named("uart"),
        nothing_to_do as Hook,
    );
    assert_eq!(second, Err("Init already done"));
    assert!(done);
    assert_eq!(listing(&mut manager), ["gpio", "uart"]);
}

#[test]
fn init_without_room_fails_and_may_be_tried_again() {
    let mut done = false;
    let mut manager = filled(5);
    let outcome = init(
        &mut done,
        &mut manager,
        Named("gpio"),
        nothing_to_do as Hook,
        Named("uart"),
        nothing_to_do as Hook,
    );
    assert_eq!(outcome, Err("Too many drivers registered"));
    assert!(!done);
    assert_eq!(listing(&mut manager), ["other"; 5]);

    let mut manager = filled(4);
    let outcome = init(
        &mut done,
        &mut manager,
        Named("gpio"),
        nothing_to_do as Hook,
        Named("uart"),
        nothing_to_do as Hook,
    );
    assert_eq!(outcome, Err("Too many drivers registered"));
    assert!(!done);
    assert_eq!(listing(&mut manager), ["other", "other", "other", "other", "gpio"]);

    let mut manager = filled(3);
    let outcome = init(
        &mut done,
        &mut manager,
        Named("gpio"),
        nothing_to_do as Hook,
        Named("uart"),
        nothing_to_do as Hook,
    );
    assert_eq!(outcome, Ok(()));
    assert!(done);
    assert_eq!(listing(&mut manager), ["other", "other", "other", "gpio", "uart"]);
}

#[test]
fn drivers_register_with_their_callbacks() {
    let mut manager = filled(0);
    assert_eq!(driver_uart(&mut manager, Named("uart"), nothing_to_do as Hook), Ok(()));
    assert_eq!(driver_gpio(&mut manager, Named("gpio"), fails as Hook), Ok(()));
    assert_eq!(listing(&mut manager), ["uart", "gpio"]);
    let error = manager.init_drivers().unwrap_err();
    assert_eq!(error.index, 1);
    assert_eq!(error.compatible, "gpio");
    assert_eq!(error.message, "pins busy");
}

#[test]
fn uart_becomes_the_console_once_it_is_up() {
    let mut registry: ConsoleRegistry<Uart> = ConsoleRegistry::new();
    assert!(matches!(console(&mut registry), ActiveConsole::Null(_)));
    assert_eq!(console(&mut registry).chars_written(), 0);
    assert_eq!(post_init_uart(&mut registry, Uart(9)), Ok(()));
    assert!(matches!(console(&mut registry), ActiveConsole::Registered(Uart(9))));
    assert_eq!(console(&mut registry).chars_written(), 9);
}
