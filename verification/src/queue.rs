//! A bounded first-in, first-out queue.
//!
//! It decouples whoever makes messages from whoever takes them. It never
//! drops and never duplicates: a message offered to a full queue is handed
//! back to its sender, who holds it until room has been made.

use vstd::prelude::*;
use std::collections::VecDeque;

verus! {

/// A queue of at most `N` items, oldest first.
pub struct Queue<T, const N: usize> {
    items: VecDeque<T>,
}

impl<T, const N: usize> View for Queue<T, N> {
    type V = Seq<T>;

    /// The items that wait, the one that leaves next at the front.
    closed spec fn view(&self) -> Seq<T> {
        self.items@
    }
}

/// What a queue holds after `item` was offered to it: `item` joins at the
/// back where there is room, and nothing changes where there is none.
pub open spec fn after_send<T>(items: Seq<T>, capacity: nat, item: T) -> Seq<T> {
    if items.len() < capacity {
        items.push(item)
    } else {
        items
    }
}

/// What a queue holds after its oldest item was asked for.
pub open spec fn after_receive<T>(items: Seq<T>) -> Seq<T> {
    if items.len() > 0 {
        items.drop_first()
    } else {
        items
    }
}

impl<T, const N: usize> Queue<T, N> {
    #[verifier::type_invariant]
    spec fn bounded(&self) -> bool {
        self.items@.len() <= N
    }

    /// An empty queue.
    pub fn new() -> (out: Self)
        ensures
            out@ == Seq::<T>::empty(),
    {
        Queue { items: VecDeque::new() }
    }

    /// The most items that the queue holds at a time.
    pub fn capacity(&self) -> (out: usize)
        ensures
            out == N,
    {
        N
    }

    /// How many items wait. Never more than the capacity.
    pub fn len(&self) -> (out: usize)
        ensures
            out == self@.len(),
            out <= N,
    {
        proof {
            use_type_invariant(self);
        }
        self.items.len()
    }

    /// Whether nothing waits.
    pub fn is_empty(&self) -> (out: bool)
        ensures
            out == (self@.len() == 0),
    {
        self.items.len() == 0
    }

    /// Whether the next `try_send` would be turned away.
    pub fn is_full(&self) -> (out: bool)
        ensures
            out == (self@.len() >= N),
            out == (self@.len() == N),
    {
        proof {
            use_type_invariant(self);
        }
        self.items.len() >= N
    }

    /// Puts `item` at the back. A full queue stays as it is and hands the
    /// item back, so that its sender can wait and offer it again.
    pub fn try_send(&mut self, item: T) -> (out: Result<(), T>)
        ensures
            final(self)@ == after_send(old(self)@, N as nat, item),
            old(self)@.len() < N ==> out is Ok,
            old(self)@.len() >= N ==> out == Err::<(), T>(item),
    {
        proof {
            use_type_invariant(&*self);
        }
        if self.items.len() >= N {
            Err(item)
        } else {
            let mut items: VecDeque<T> = VecDeque::new();
            core::mem::swap(&mut items, &mut self.items);
            items.push_back(item);
            self.items = items;
            Ok(())
        }
    }

    /// Takes the oldest item, if there is one.
    pub fn try_receive(&mut self) -> (out: Option<T>)
        ensures
            final(self)@ == after_receive(old(self)@),
            old(self)@.len() == 0 ==> out is None,
            old(self)@.len() > 0 ==> out == Some(old(self)@[0]),
    {
        proof {
            use_type_invariant(&*self);
        }
        let mut items: VecDeque<T> = VecDeque::new();
        core::mem::swap(&mut items, &mut self.items);
        let out = items.pop_front();
        assert(old(self)@.len() > 0 ==> items@ =~= old(self)@.drop_first());
        self.items = items;
        out
    }
}

/// What a queue holds after all of `items` were offered to it in order.
pub open spec fn after_send_all<T>(queue: Seq<T>, capacity: nat, items: Seq<T>) -> Seq<T>
    decreases items.len(),
{
    if items.len() == 0 {
        queue
    } else {
        after_send_all(after_send(queue, capacity, items[0]), capacity, items.drop_first())
    }
}

/// First in, first out: items that were accepted leave in the order in which
/// they were sent, after those that waited before them.
pub proof fn queue_keeps_order<T>(queue: Seq<T>, capacity: nat, items: Seq<T>)
    requires
        queue.len() + items.len() <= capacity,
    ensures
        after_send_all(queue, capacity, items) == queue + items,
    decreases items.len(),
{
    if items.len() == 0 {
        assert(queue + items =~= queue);
    } else {
        queue_keeps_order(queue.push(items[0]), capacity, items.drop_first());
        assert(queue.push(items[0]) + items.drop_first() =~= queue + items);
    }
}

/// A full queue loses nothing and repeats nothing: an offer leaves it as it
/// was, and once its oldest item has been taken the same offer is accepted,
/// behind everything that waited.
pub proof fn full_queue_holds_back<T>(queue: Seq<T>, capacity: nat, item: T)
    requires
        queue.len() == capacity,
        capacity > 0,
    ensures
        after_send(queue, capacity, item) == queue,
        after_send(after_receive(queue), capacity, item) == queue.drop_first().push(item),
        after_send(after_receive(queue), capacity, item).len() == capacity,
{
}

} // verus!
