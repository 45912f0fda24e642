//! A queue that keeps only its most recent `capacity` items.
use vstd::prelude::*;

use std::collections::VecDeque;

verus! {

pub struct RingBuffer<T> {
    capacity: usize,
    data: VecDeque<T>,
}

/// The items kept after `item` joins `items` in a buffer of `capacity`: when
/// that makes one too many, the oldest is dropped.
pub open spec fn pushed<T>(items: Seq<T>, item: T, capacity: nat) -> Seq<T> {
    let grown = items.push(item);
    if grown.len() > capacity {
        grown.subrange(1, grown.len() as int)
    } else {
        grown
    }
}

impl<T> View for RingBuffer<T> {
    type V = Seq<T>;

    closed spec fn view(&self) -> Seq<T> {
        self.data@
    }
}

impl<T> RingBuffer<T> {
    #[verifier::type_invariant]
    closed spec fn within_capacity(self) -> bool {
        self.data@.len() <= self.capacity
    }

    /// The most items the buffer keeps.
    pub closed spec fn capacity(&self) -> nat {
        self.capacity as nat
    }

    pub fn new(capacity: usize) -> (rb: RingBuffer<T>)
        ensures
            rb@ == Seq::<T>::empty(),
            rb.capacity() == capacity,
    {
        RingBuffer { capacity, data: VecDeque::new() }
    }

    pub fn push(&mut self, item: T)
        ensures
            final(self)@ == pushed(old(self)@, item, old(self).capacity()),
            final(self).capacity() == old(self).capacity(),
            final(self)@.len() <= final(self).capacity(),
    {
        proof {
            use_type_invariant(&*self);
        }
        let mut data: VecDeque<T> = VecDeque::new();
        std::mem::swap(&mut data, &mut self.data);
        data.push_back(item);
        if data.len() > self.capacity {
            let _ = data.pop_front();
        }
        self.data = data;
    }

    /// Takes every item out, oldest first.
    pub fn flush_vec(&mut self) -> (items: Vec<T>)
        ensures
            items@ == old(self)@,
            final(self)@ == Seq::<T>::empty(),
            final(self).capacity() == old(self).capacity(),
    {
        let mut deque: VecDeque<T> = VecDeque::new();
        std::mem::swap(&mut deque, &mut self.data);
        let ghost initial = deque@;
        let mut items: Vec<T> = Vec::new();
        while deque.len() > 0
            invariant
                items@ + deque@ == initial,
            decreases deque@.len(),
        {
            let ghost before = deque@;
            match deque.pop_front() {
                Some(item) => {
                    items.push(item);
                    assert(items@ + deque@ =~= initial) by {
                        assert(before =~= seq![before[0]] + deque@);
                    }
                },
                None => {
                },
            }
        }
        assert(items@ =~= initial);
        items
    }

    pub fn clear(&mut self)
        ensures
            final(self)@ == Seq::<T>::empty(),
            final(self).capacity() == old(self).capacity(),
    {
        let mut data: VecDeque<T> = VecDeque::new();
        std::mem::swap(&mut data, &mut self.data);
        data.clear();
        self.data = data;
    }

    pub fn len(&self) -> (n: usize)
        ensures
            n == self@.len(),
    {
        self.data.len()
    }
}

/// A buffer never holds more than its capacity, and after a push it holds
/// the newest items: the pushed item is last, the rest keep their order.
pub proof fn law_push_keeps_newest<T>(items: Seq<T>, item: T, capacity: nat)
    requires
        items.len() <= capacity,
    ensures
        pushed(items, item, capacity).len() <= capacity,
        capacity > 0 ==> pushed(items, item, capacity).last() == item,
        pushed(items, item, capacity).len() == if items.len() < capacity {
            items.len() + 1
        } else {
            capacity
        },
        forall|i: int|
            0 <= i < pushed(items, item, capacity).len() - 1 ==> #[trigger] pushed(
                items,
                item,
                capacity,
            )[i] == items[i + (items.len() + 1 - pushed(items, item, capacity).len())],
{
}

} // verus!
