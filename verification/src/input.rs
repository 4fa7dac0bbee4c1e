//! The integer-valued parts of the input model the loop observes each
//! iteration: edge-detected button state, and entity-id allocation for the
//! collaborator that produces the renderable snapshot.

use vstd::prelude::*;

verus! {

/// A button's current and previous observation, aged once per poll so a
/// press or release edge can be told from a held button.
#[derive(Clone, Copy, Debug, Default, PartialEq, Eq, Structural)]
pub struct ButtonState {
    /// Whether the button is down now.
    pub current: bool,
    /// Whether the button was down at the previous poll.
    pub previous: bool,
}

impl ButtonState {
    /// Ages the current observation into the previous one, at the top of an
    /// input poll.
    pub fn progress(&mut self)
        ensures
            final(self).previous == old(self).current,
            final(self).current == old(self).current,
    {
        self.previous = self.current;
    }

    /// Records the button going down.
    pub fn press(&mut self)
        ensures
            final(self).current,
            final(self).previous == old(self).previous,
    {
        self.current = true;
    }

    /// Records the button going up.
    pub fn release(&mut self)
        ensures
            !final(self).current,
            final(self).previous == old(self).previous,
    {
        self.current = false;
    }
}

/// Hands out entity ids in increasing order, starting at zero.
#[derive(Clone, Copy, Debug, Default, PartialEq, Eq, Structural)]
pub struct EntityIdAllocator {
    /// The next id to hand out.
    pub next: u16,
}

impl EntityIdAllocator {
    /// A fresh allocator, starting at id zero.
    pub fn new() -> (r: EntityIdAllocator)
        ensures
            r.next == 0,
    {
        EntityIdAllocator { next: 0 }
    }

    /// Returns the next free id and advances past it. The id space must not
    /// be exhausted.
    pub fn allocate(&mut self) -> (r: u16)
        requires
            old(self).next < u16::MAX,
        ensures
            r == old(self).next,
            final(self).next == old(self).next + 1,
    {
        let id = self.next;
        self.next = self.next + 1;
        id
    }
}

} // verus!
