//! A standard joypad: eight buttons read out one bit at a time.
use vstd::prelude::*;

use crate::emulator::io::event::{Event, EventHandler, Key};
use crate::emulator::memory::{Reader, Writer};

verus! {

#[derive(Clone, Copy, Debug, Eq, Hash, PartialEq, Structural)]
pub enum Button {
    Start,
    Select,
    A,
    B,
    Up,
    Down,
    Left,
    Right,
}

/// A button's place in the order the joypad reports them: A, B, Select,
/// Start, Up, Down, Left, Right.
pub open spec fn strobe_position(button: Button) -> int {
    match button {
        Button::A => 0,
        Button::B => 1,
        Button::Select => 2,
        Button::Start => 3,
        Button::Up => 4,
        Button::Down => 5,
        Button::Left => 6,
        Button::Right => 7,
    }
}

pub fn strobe_index(button: Button) -> (i: usize)
    ensures
        i == strobe_position(button),
{
    match button {
        Button::A => 0,
        Button::B => 1,
        Button::Select => 2,
        Button::Start => 3,
        Button::Up => 4,
        Button::Down => 5,
        Button::Left => 6,
        Button::Right => 7,
    }
}

/// The button a key is bound to: a later binding of the same key overrides
/// an earlier one.
pub open spec fn key_binding(keymap: Seq<(Key, Button)>, key: Key) -> Option<Button>
    decreases keymap.len(),
{
    if keymap.len() == 0 {
        None
    } else if keymap.last().0 == key {
        Some(keymap.last().1)
    } else {
        key_binding(keymap.drop_last(), key)
    }
}

pub struct Controller {
    keymap: Vec<(Key, Button)>,
    /// Whether each button is held, in strobe order.
    keystate: [bool; 8],
    strobe_ix: u8,
    register: u8,
}

pub struct ControllerView {
    pub keymap: Seq<(Key, Button)>,
    pub keystate: Seq<bool>,
    pub strobe_ix: u8,
    pub register: u8,
}

impl View for Controller {
    type V = ControllerView;

    closed spec fn view(&self) -> ControllerView {
        ControllerView {
            keymap: self.keymap@,
            keystate: self.keystate@,
            strobe_ix: self.strobe_ix,
            register: self.register,
        }
    }
}

/// The joypad state after `event`: a key bound to a button presses or
/// releases it; other keys change nothing.
pub open spec fn controller_handled(s: ControllerView, event: Event) -> ControllerView {
    match event {
        Event::KeyDown(key) => match key_binding(s.keymap, key) {
            Some(b) => ControllerView { keystate: s.keystate.update(strobe_position(b), true), ..s },
            None => s,
        },
        Event::KeyUp(key) => match key_binding(s.keymap, key) {
            Some(b) => ControllerView { keystate: s.keystate.update(strobe_position(b), false), ..s },
            None => s,
        },
    }
}

/// The button a read reports: while the strobe bit is set, always button A.
pub open spec fn controller_position(s: ControllerView) -> int {
    if s.register & 1 != 0 {
        0
    } else {
        s.strobe_ix as int
    }
}

impl Controller {
    /// A joypad with the given key bindings, no button held.
    pub fn new(keymap: Vec<(Key, Button)>) -> (c: Controller)
        ensures
            c@ == (ControllerView {
                keymap: keymap@,
                keystate: Seq::new(8, |i: int| false),
                strobe_ix: 0,
                register: 0,
            }),
    {
        let c = Controller { keymap, keystate: [false; 8], strobe_ix: 0, register: 0 };
        assert(c@.keystate =~= Seq::new(8, |i: int| false));
        c
    }

    fn lookup(&self, key: Key) -> (b: Option<Button>)
        ensures
            b == key_binding(self@.keymap, key),
    {
        let mut i = self.keymap.len();
        assert(self.keymap@.subrange(0, i as int) =~= self.keymap@);
        while i > 0
            invariant
                i <= self.keymap@.len(),
                key_binding(self.keymap@.subrange(0, i as int), key) == key_binding(
                    self.keymap@,
                    key,
                ),
            decreases i,
        {
            let (k, b) = self.keymap[i - 1];
            assert(self.keymap@.subrange(0, i as int).drop_last() =~= self.keymap@.subrange(
                0,
                i - 1,
            ));
            if k == key {
                return Some(b);
            }
            i = i - 1;
        }
        assert(self.keymap@.subrange(0, 0) =~= Seq::<(Key, Button)>::empty());
        None
    }
}

impl EventHandler for Controller {
    open spec fn handled(state: ControllerView, event: Event) -> ControllerView {
        controller_handled(state, event)
    }

    fn handle_event(&mut self, event: Event) {
        match event {
            Event::KeyDown(key) => {
                if let Some(button) = self.lookup(key) {
                    self.keystate[strobe_index(button)] = true;
                }
            },
            Event::KeyUp(key) => {
                if let Some(button) = self.lookup(key) {
                    self.keystate[strobe_index(button)] = false;
                }
            },
        }
    }
}

impl Reader for Controller {
    open spec fn accessible(state: ControllerView, address: u16) -> bool {
        state.strobe_ix < 8 && state.keystate.len() == 8
    }

    open spec fn peek(state: ControllerView, address: u16) -> u8 {
        if state.keystate[controller_position(state)] {
            1
        } else {
            0
        }
    }

    /// Each read moves on to the next button, wrapping after the eighth.
    open spec fn after_read(state: ControllerView, address: u16) -> ControllerView {
        ControllerView { strobe_ix: ((controller_position(state) + 1) % 8) as u8, ..state }
    }

    proof fn lemma_read_keeps_access(state: ControllerView, address: u16) {
    }

    fn read(&mut self, address: u16) -> (byte: u8) {
        // If the strobe bit is 1, constantly reset state.
        if self.register & 1 != 0 {
            self.strobe_ix = 0;
        }
        let is_pressed = self.keystate[self.strobe_ix as usize];
        let byte: u8 = if is_pressed {
            1
        } else {
            0
        };
        self.strobe_ix = self.strobe_ix + 1;
        self.strobe_ix = self.strobe_ix % 8;
        byte
    }
}

impl Writer for Controller {
    open spec fn writable(state: ControllerView, address: u16) -> bool {
        state.strobe_ix < 8 && state.keystate.len() == 8
    }

    proof fn lemma_read_keeps_writable(state: ControllerView, address: u16) {
        Self::lemma_read_keeps_access(state, address);
    }

    /// Only bit 0, the strobe, is kept.
    open spec fn after_write(state: ControllerView, address: u16, byte: u8) -> ControllerView {
        ControllerView { register: byte & 1, ..state }
    }

    proof fn lemma_write_keeps_access(state: ControllerView, address: u16, byte: u8) {
    }

    fn write(&mut self, address: u16, byte: u8) {
        self.register = byte & 1;
    }
}

/// Pressing a key bound to a button, then reading the joypad at that
/// button's turn in the strobe order, reports it held; releasing the key
/// reports it free again.
pub proof fn law_pressed_button_reported(s: ControllerView, key: Key, button: Button)
    requires
        s.keystate.len() == 8,
        s.strobe_ix < 8,
        key_binding(s.keymap, key) == Some(button),
        s.register & 1 == 0,
        s.strobe_ix == strobe_position(button),
    ensures
        <Controller as Reader>::peek(controller_handled(s, Event::KeyDown(key)), 0x4016) == 1,
        <Controller as Reader>::peek(controller_handled(s, Event::KeyUp(key)), 0x4016) == 0,
{
}

/// With the strobe bit set every read reports button A; after it is cleared,
/// eight reads report the buttons in order and the ninth starts over.
pub proof fn law_strobe_cycle(s: ControllerView)
    requires
        s.keystate.len() == 8,
        s.strobe_ix < 8,
    ensures
        <Controller as Reader>::peek(<Controller as Writer>::after_write(s, 0x4016, 1), 0x4016)
            == (if s.keystate[0] {
            1u8
        } else {
            0u8
        }),
        <Controller as Reader>::after_read(
            <Controller as Writer>::after_write(s, 0x4016, 1),
            0x4016,
        ).strobe_ix == 1,
        s.register & 1 == 0 ==> <Controller as Reader>::after_read(s, 0x4016).strobe_ix == (
        s.strobe_ix + 1) % 8,
{
    assert(1u8 & 1 == 1) by (bit_vector);
}

/// The joypad reports each of the eight buttons at its own turn: the strobe
/// order places A first and Right last, and no two buttons at one place.
pub proof fn law_strobe_order(a: Button, b: Button)
    ensures
        0 <= strobe_position(a) < 8,
        a != b ==> strobe_position(a) != strobe_position(b),
        strobe_position(Button::A) == 0 && strobe_position(Button::Right) == 7,
{
}

/// A key event touches only the button its key is bound to: every other
/// button stays held or free as it was, and the strobe and register stay.
pub proof fn law_key_event_local(s: ControllerView, event: Event, other: Button)
    requires
        s.keystate.len() == 8,
    ensures
        ({
            let t = controller_handled(s, event);
            let key = match event {
                Event::KeyDown(k) => k,
                Event::KeyUp(k) => k,
            };
            &&& key_binding(s.keymap, key) != Some(other) ==> t.keystate[strobe_position(other)]
                == s.keystate[strobe_position(other)]
            &&& t.keystate.len() == 8 && t.strobe_ix == s.strobe_ix && t.register == s.register
            &&& t.keymap == s.keymap
        }),
{
    let key = match event {
        Event::KeyDown(k) => k,
        Event::KeyUp(k) => k,
    };
    match key_binding(s.keymap, key) {
        Some(b) => law_strobe_order(b, other),
        None => {},
    }
}

} // verus!
