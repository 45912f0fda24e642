use std::cell::RefCell;
use std::rc::Rc;

use nes::emulator::clock::{Clock, ScaledTicker, Ticker};

struct DummyTicker {
    value: Rc<RefCell<u16>>,
}

impl DummyTicker {
    fn new() -> (DummyTicker, Rc<RefCell<u16>>) {
        let value = Rc::new(RefCell::new(0));
        (DummyTicker { value: value.clone() }, value)
    }
}

impl Ticker for DummyTicker {
    fn ready(&self) -> bool {
        true
    }

    fn step_cycles(&self) -> u32 {
        1
    }

    fn ticked(&self, _next: &Self) -> bool {
        true
    }

    fn tick(&mut self) -> u32 {
        *self.value.borrow_mut() += 1;
        1
    }
}

#[test]
fn test_single_ticker() {
    let mut clock = Clock::new();
    let (ticker, value) = DummyTicker::new();
    clock.manage(ScaledTicker::new(ticker, 1));

    clock.tick();
    assert_eq!(*value.borrow(), 1);
    clock.tick();
    assert_eq!(*value.borrow(), 2);
    clock.tick();
    assert_eq!(*value.borrow(), 3);
}

#[test]
fn test_scaled_ticker() {
    let mut clock = Clock::new();
    let (ticker1, value1) = DummyTicker::new();
    let (ticker3, value3) = DummyTicker::new();

    clock.manage(ScaledTicker::new(ticker1, 1));
    clock.manage(ScaledTicker::new(ticker3, 3));

    // Tick twice first since the initial order is undefined.
    clock.tick();
    clock.tick();
    assert_eq!(*value1.borrow(), 1);
    assert_eq!(*value3.borrow(), 1);

    clock.tick();
    assert_eq!(*value1.borrow(), 2);
    assert_eq!(*value3.borrow(), 1);

    clock.tick();
    assert_eq!(*value1.borrow(), 3);
    assert_eq!(*value3.borrow(), 1);

    // And again here when their periods align.
    clock.tick();
    clock.tick();
    assert_eq!(*value1.borrow(), 4);
    assert_eq!(*value3.borrow(), 2);
}

#[test]
fn test_clock_reports_cycles_waited() {
    let mut clock = Clock::new();
    let (ticker, _value) = DummyTicker::new();
    clock.manage(ScaledTicker::new(ticker, 4));
    // Due at once, then every four cycles.
    assert_eq!(clock.tick(), 0);
    assert_eq!(clock.tick(), 4);
    assert_eq!(clock.tick(), 4);
}
