//! A pair of resources used alternately: one is read (the front) while the
//! other is written (the back), and the roles swap after every step.

use vstd::prelude::*;

verus! {

/// Two resources, one of which is the front and the other the back.
#[derive(Debug, Clone)]
pub struct PingPongBuffer<T> {
    texs: [T; 2],
    idx: bool,
}

impl<T> PingPongBuffer<T> {
    /// The resource currently in front.
    pub closed spec fn front_spec(&self) -> T {
        if self.idx {
            self.texs@[1]
        } else {
            self.texs@[0]
        }
    }

    /// The resource currently at the back.
    pub closed spec fn back_spec(&self) -> T {
        if self.idx {
            self.texs@[0]
        } else {
            self.texs@[1]
        }
    }

    /// The same pair with the roles swapped.
    pub closed spec fn swapped(self) -> Self {
        PingPongBuffer { texs: self.texs, idx: !self.idx }
    }

    /// A pair with `front` in front and `back` at the back.
    pub fn new(front: T, back: T) -> (buffer: Self)
        ensures
            buffer.front_spec() == front,
            buffer.back_spec() == back,
    {
        PingPongBuffer { texs: [front, back], idx: false }
    }

    /// The resource in front.
    pub fn front(&self) -> (front: &T)
        ensures
            *front == self.front_spec(),
    {
        if self.idx {
            &self.texs[1]
        } else {
            &self.texs[0]
        }
    }

    /// The resource at the back.
    pub fn back(&self) -> (back: &T)
        ensures
            *back == self.back_spec(),
    {
        if self.idx {
            &self.texs[0]
        } else {
            &self.texs[1]
        }
    }

    /// Swaps the roles: the back comes to the front and the front goes to
    /// the back.
    pub fn update(&mut self)
        ensures
            *final(self) == old(self).swapped(),
            final(self).front_spec() == old(self).back_spec(),
            final(self).back_spec() == old(self).front_spec(),
    {
        self.idx = !self.idx;
    }
}

/// Swapping exchanges front and back, and swapping twice gives back the
/// pair as it was.
pub proof fn lemma_swap_twice_restores<T>(buffer: PingPongBuffer<T>)
    ensures
        buffer.swapped().front_spec() == buffer.back_spec(),
        buffer.swapped().back_spec() == buffer.front_spec(),
        buffer.swapped().swapped() == buffer,
{
}

/// Views of the two resources of a ping-pong pair, in the pair's order.
#[derive(Debug)]
pub struct PingPongBufferView<V>(pub [V; 2]);

} // verus!
