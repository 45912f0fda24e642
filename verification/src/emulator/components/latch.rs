//! A two-state latch.
use vstd::prelude::*;

verus! {

#[derive(Clone, Copy, Debug, PartialEq, Eq)]
pub enum State {
    OFF,
    ON,
}

pub struct Latch {
    state: State,
}

impl View for Latch {
    type V = State;

    closed spec fn view(&self) -> State {
        self.state
    }
}

pub open spec fn flipped(s: State) -> State {
    match s {
        State::OFF => State::ON,
        State::ON => State::OFF,
    }
}

pub fn new() -> (latch: Latch)
    ensures
        latch@ == State::OFF,
{
    Latch { state: State::OFF }
}

impl Latch {
    pub fn toggle(&mut self)
        ensures
            final(self)@ == flipped(old(self)@),
    {
        self.state = match self.state {
            State::OFF => State::ON,
            State::ON => State::OFF,
        }
    }

    pub fn get(&self) -> (s: State)
        ensures
            s == self@,
    {
        self.state
    }

    pub fn reset(&mut self)
        ensures
            final(self)@ == State::OFF,
    {
        self.state = State::OFF;
    }

    pub fn as_bool(&self) -> (on: bool)
        ensures
            on == (self@ == State::ON),
    {
        match self.state {
            State::ON => true,
            State::OFF => false,
        }
    }

    pub fn load_bool(&mut self, on: bool)
        ensures
            final(self)@ == (if on {
                State::ON
            } else {
                State::OFF
            }),
    {
        self.state = if on {
            State::ON
        } else {
            State::OFF
        };
    }
}

/// Toggling twice restores the latch; a loaded boolean reads back unchanged.
pub proof fn law_latch_round_trips(s: State, on: bool)
    ensures
        flipped(flipped(s)) == s,
        flipped(s) != s,
        ((if on {
            State::ON
        } else {
            State::OFF
        }) == State::ON) == on,
{
}

} // verus!
