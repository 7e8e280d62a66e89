use std::collections::VecDeque;

use vstd::prelude::*;

use crate::errors::WebMQError;

verus! {

/// The text of the error that popping an empty queue gives.
pub open spec fn empty_queue_text() -> Seq<char> {
    "Failed to pop data from queue as it contains no elements"@
}

/// A first-in, first-out store of items.
pub trait AsyncQueue<T>: Sized {
    /// The items held, head first.
    spec fn contents(&self) -> Seq<T>;

    /// Removes and returns the head item; fails with `Data` when there is none.
    fn pop(&mut self) -> (r: Result<T, WebMQError>)
        ensures
            match r {
                Ok(item) => {
                    &&& old(self).contents().len() > 0
                    &&& item == old(self).contents()[0]
                    &&& final(self).contents() == old(self).contents().drop_first()
                },
                Err(e) => {
                    &&& old(self).contents().len() == 0
                    &&& final(self).contents() == old(self).contents()
                    &&& e is Data
                    &&& e.message_spec() == empty_queue_text()
                },
            },
    ;

    /// Appends an item at the tail; never fails.
    fn push(&mut self, data: T) -> (r: Option<WebMQError>)
        ensures
            final(self).contents() == old(self).contents().push(data),
            r is None,
    ;
}

/// An unbounded in-memory queue with constant-time push and pop.
pub struct MemoryQueue<T> {
    queue: VecDeque<T>,
}

impl<T> View for MemoryQueue<T> {
    type V = Seq<T>;

    closed spec fn view(&self) -> Seq<T> {
        self.queue@
    }
}

impl<T> AsyncQueue<T> for MemoryQueue<T> {
    open spec fn contents(&self) -> Seq<T> {
        self@
    }

    fn pop(&mut self) -> (r: Result<T, WebMQError>) {
        match self.queue.pop_front() {
            Some(data) => Ok(data),
            None => Err(
                WebMQError::Data(
                    String::from_str("Failed to pop data from queue as it contains no elements"),
                ),
            ),
        }
    }

    fn push(&mut self, data: T) -> (r: Option<WebMQError>) {
        self.queue.push_back(data);
        None
    }
}

impl<T> MemoryQueue<T> {
    /// An empty queue.
    pub fn new() -> (r: MemoryQueue<T>)
        ensures
            r@ == Seq::<T>::empty(),
    {
        MemoryQueue { queue: VecDeque::new() }
    }
}

/// An empty queue of byte messages.
pub fn create_memory_queue() -> (r: MemoryQueue<Vec<u8>>)
    ensures
        r@ == Seq::<Vec<u8>>::empty(),
{
    MemoryQueue::new()
}

} // verus!
