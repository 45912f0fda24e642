//! Framework-agnostic input events and their distribution to handlers.
use vstd::prelude::*;

verus! {

#[derive(Clone, Copy, Debug, Eq, Hash, PartialEq, Structural)]
pub enum Event {
    KeyDown(Key),
    KeyUp(Key),
}

#[derive(Clone, Copy, Debug, Eq, Hash, PartialEq, Structural)]
pub enum Key {
    A,
    B,
    C,
    D,
    E,
    F,
    G,
    H,
    I,
    J,
    K,
    L,
    M,
    N,
    O,
    P,
    Q,
    R,
    S,
    T,
    U,
    V,
    W,
    X,
    Y,
    Z,
    Num1,
    Num2,
    Num3,
    Num4,
    Num5,
    Num6,
    Num7,
    Num8,
    Num9,
    Num0,
    Up,
    Down,
    Left,
    Right,
    Minus,
    Equals,
    Escape,
    Return,
    Tab,
    Space,
}

/// Something that reacts to input events.
pub trait EventHandler: View + Sized {
    /// The handler's state after `event`.
    spec fn handled(state: Self::V, event: Event) -> Self::V;

    fn handle_event(&mut self, event: Event)
        ensures
            final(self)@ == Self::handled(old(self)@, event),
    ;
}

/// Hands each event to every registered handler, in registration order.
pub struct EventBus<H> {
    event_handlers: Vec<H>,
}

impl<H: EventHandler> View for EventBus<H> {
    type V = Seq<H::V>;

    closed spec fn view(&self) -> Seq<H::V> {
        self.event_handlers@.map_values(|h: H| h@)
    }
}

impl<H: EventHandler> EventBus<H> {
    pub fn new() -> (bus: EventBus<H>)
        ensures
            bus@ == Seq::<H::V>::empty(),
    {
        let bus = EventBus { event_handlers: Vec::new() };
        assert(bus@ =~= Seq::<H::V>::empty());
        bus
    }

    pub fn broadcast(&mut self, event: Event)
        ensures
            final(self)@ == old(self)@.map_values(|v: H::V| H::handled(v, event)),
    {
        let n = self.event_handlers.len();
        let mut i: usize = 0;
        while i < n
            invariant
                n == self.event_handlers@.len(),
                n == old(self).event_handlers@.len(),
                i <= n,
                forall|j: int|
                    0 <= j < i ==> #[trigger] self.event_handlers@[j]@ == H::handled(
                        old(self).event_handlers@[j]@,
                        event,
                    ),
                forall|j: int| i <= j < n ==> #[trigger] self.event_handlers@[j] == old(
                    self,
                ).event_handlers@[j],
            decreases n - i,
        {
            self.event_handlers[i].handle_event(event);
            i = i + 1;
        }
        assert(self@ =~= old(self)@.map_values(|v: H::V| H::handled(v, event)));
    }

    pub fn register(&mut self, handler: H)
        ensures
            final(self)@ == old(self)@.push(handler@),
    {
        self.event_handlers.push(handler);
        assert(self@ =~= old(self)@.push(handler@));
    }
}

} // verus!
