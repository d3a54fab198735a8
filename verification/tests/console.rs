use kernel_platform::console::interface::{All, Read, Statistics, Write};
use kernel_platform::console::null_console::NullConsole;
use kernel_platform::console::{console, register_console, ActiveConsole, ConsoleRegistry};
use std::cell::{Cell, RefCell};

struct MockConsole {
    id: u32,
    output: RefCell<String>,
    input: RefCell<Vec<char>>,
    written: Cell<usize>,
    read: Cell<usize>,
    flushed: Cell<usize>,
}

impl MockConsole {
    fn new(id: u32, input: &str) -> Self {
        MockConsole {
            id,
            output: RefCell::new(String::new()),
            input: RefCell::new(input.chars().rev().collect()),
            written: Cell::new(0),
            read: Cell::new(0),
            flushed: Cell::new(0),
        }
    }
}

impl Write for MockConsole {
    fn write_char(&self, c: char) {
        self.output.borrow_mut().push(c);
        self.written.set(self.written.get() + 1);
    }

    fn write_fmt(&self, args: &str) -> Result<(), &'static str> {
        if args.is_empty() {
            return Err("nothing to write");
        }
        for c in args.chars() {
            self.write_char(c);
        }
        Ok(())
    }

    fn flush(&self) {
        self.flushed.set(self.flushed.get() + 1);
    }
}

impl Read for MockConsole {
    fn read_char(&self) -> char {
        self.read.set(self.read.get() + 1);
        self.input.borrow_mut().pop().unwrap_or('?')
    }

    fn clear_rx(&self) {
        self.input.borrow_mut().clear();
    }
}

impl Statistics for MockConsole {
    fn chars_written(&self) -> usize {
        self.written.get()
    }

    fn chars_read(&self) -> usize {
        self.read.get()
    }
}

impl All for MockConsole {}

struct SilentConsole;

impl Write for SilentConsole {
    fn write_char(&self, _c: char) {}

    fn write_fmt(&self, _args: &str) -> Result<(), &'static str> {
        Ok(())
    }

    fn flush(&self) {}
}

impl Read for SilentConsole {
    fn clear_rx(&self) {}
}

impl Statistics for SilentConsole {}

impl All for SilentConsole {}

fn id_of(current: &ActiveConsole<&MockConsole>) -> Option<u32> {
    match current {
        ActiveConsole::Null(_) => None,
        ActiveConsole::Registered(console) => Some(console.id),
    }
}

#[test]
fn null_console_does_nothing() {
    let null = NullConsole;
    null.write_char('x');
    assert_eq!(null.write_fmt("early output"), Ok(()));
    null.flush();
    null.clear_rx();
    assert_eq!(null.read_char(), ' ');
    assert_eq!(null.chars_written(), 0);
    assert_eq!(null.chars_read(), 0);
}

#[test]
fn before_any_install_the_null_console_is_current() {
    let mut registry: ConsoleRegistry<&MockConsole> = ConsoleRegistry::new();
    let current = console(&mut registry);
    assert!(matches!(current, ActiveConsole::Null(NullConsole)));
    current.write_char('x');
    assert_eq!(current.write_fmt("early output"), Ok(()));
    assert_eq!(current.write_fmt(""), Ok(()));
    current.flush();
    current.clear_rx();
    assert_eq!(current.read_char(), ' ');
    assert_eq!(current.chars_written(), 0);
    assert_eq!(current.chars_read(), 0);
    // Still so when asked again.
    assert_eq!(id_of(&console(&mut registry)), None);
}

#[test]
fn installed_console_is_current() {
    let uart = MockConsole::new(7, "hi");
    let mut registry = ConsoleRegistry::new();
    register_console(&mut registry, &uart);
    let current = console(&mut registry);
    assert_eq!(id_of(&current), Some(7));
    current.write_char('a');
    assert_eq!(current.write_fmt("bc"), Ok(()));
    assert_eq!(current.write_fmt(""), Err("nothing to write"));
    current.flush();
    assert_eq!(current.read_char(), 'h');
    assert_eq!(current.chars_written(), 3);
    assert_eq!(current.chars_read(), 1);
    current.clear_rx();
    assert_eq!(current.read_char(), '?');
    // All of it reached the console that was installed.
    assert_eq!(*uart.output.borrow(), "abc");
    assert_eq!(uart.written.get(), 3);
    assert_eq!(uart.read.get(), 2);
    assert_eq!(uart.flushed.get(), 1);
}

#[test]
fn last_installed_console_wins() {
    let first = MockConsole::new(1, "");
    let second = MockConsole::new(2, "");
    let mut registry = ConsoleRegistry::new();
    register_console(&mut registry, &first);
    assert_eq!(id_of(&console(&mut registry)), Some(1));
    register_console(&mut registry, &second);
    assert_eq!(id_of(&console(&mut registry)), Some(2));
    // Installing the same console again changes nothing.
    register_console(&mut registry, &second);
    assert_eq!(id_of(&console(&mut registry)), Some(2));
    console(&mut registry).write_char('z');
    assert_eq!(*first.output.borrow(), "");
    assert_eq!(*second.output.borrow(), "z");
}

#[test]
fn a_trait_object_is_a_console() {
    let uart = MockConsole::new(3, "k");
    let silent = SilentConsole;
    let mut registry: ConsoleRegistry<&dyn All> = ConsoleRegistry::new();
    register_console(&mut registry, &silent);
    let current = console(&mut registry);
    current.write_char('q');
    assert_eq!(current.read_char(), ' ');
    assert_eq!(current.chars_written(), 0);
    assert_eq!(current.chars_read(), 0);
    register_console(&mut registry, &uart);
    let current = console(&mut registry);
    assert_eq!(current.write_fmt("ok"), Ok(()));
    assert_eq!(current.read_char(), 'k');
    assert_eq!(current.chars_written(), 2);
    assert_eq!(*uart.output.borrow(), "ok");
}
