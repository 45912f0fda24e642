use nes::emulator::controller::{Button, Controller};
use nes::emulator::io::event::{Event, EventBus, EventHandler, Key};
use nes::emulator::memory::{Reader, Writer};

fn joypad() -> Controller {
    Controller::new(vec![
        (Key::Z, Button::A),
        (Key::X, Button::B),
        (Key::A, Button::Start),
        (Key::S, Button::Select),
        (Key::Up, Button::Up),
        (Key::Down, Button::Down),
        (Key::Left, Button::Left),
        (Key::Right, Button::Right),
    ])
}

fn read_all(c: &mut Controller) -> Vec<u8> {
    (0..8).map(|_| c.read(0x4016)).collect()
}

#[test]
fn test_controller_reports_buttons_in_strobe_order() {
    let mut c = joypad();
    c.handle_event(Event::KeyDown(Key::X));
    c.handle_event(Event::KeyDown(Key::A));
    c.handle_event(Event::KeyDown(Key::Right));
    c.write(0x4016, 1);
    c.write(0x4016, 0);
    // A, B, Select, Start, Up, Down, Left, Right.
    assert_eq!(read_all(&mut c), vec![0, 1, 0, 1, 0, 0, 0, 1]);
    // The ninth read starts over.
    assert_eq!(c.read(0x4016), 0);
    assert_eq!(c.read(0x4016), 1);
}

#[test]
fn test_controller_strobe_held_reads_a() {
    let mut c = joypad();
    c.handle_event(Event::KeyDown(Key::Z));
    c.write(0x4016, 1);
    assert_eq!(read_all(&mut c), vec![1; 8]);
    c.handle_event(Event::KeyUp(Key::Z));
    assert_eq!(c.read(0x4016), 0);
}

#[test]
fn test_controller_ignores_unbound_keys() {
    let mut c = joypad();
    c.handle_event(Event::KeyDown(Key::Q));
    assert_eq!(read_all(&mut c), vec![0; 8]);
}

#[test]
fn test_controller_later_binding_wins() {
    let mut c = Controller::new(vec![(Key::Z, Button::A), (Key::Z, Button::B)]);
    c.handle_event(Event::KeyDown(Key::Z));
    assert_eq!(read_all(&mut c), vec![0, 1, 0, 0, 0, 0, 0, 0]);
}

#[test]
fn test_event_bus_broadcasts_to_all() {
    let mut bus = EventBus::new();
    bus.register(joypad());
    bus.register(Controller::new(vec![(Key::Z, Button::Start)]));
    bus.broadcast(Event::KeyDown(Key::Z));
    bus.broadcast(Event::KeyUp(Key::Z));
}
