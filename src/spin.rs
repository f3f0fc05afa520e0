//! A guarded cell whose acquisition keeps the caller on the CPU while it waits.
use vstd::prelude::*;

use crate::guard::{acquired, fresh, released, Guard, LockCore, LockView, Wait};

verus! {

/// A value owned by a spin lock. While the cell is held, a waiter is
/// told to busy-poll rather than to suspend.
pub struct SpinGuardedCell<T> {
    core: LockCore<T>,
}

impl<T> View for SpinGuardedCell<T> {
    type V = LockView<T>;

    closed spec fn view(&self) -> LockView<T> {
        self.core@
    }
}

impl<T> SpinGuardedCell<T> {
    /// A free cell that owns `initial`.
    pub fn new(initial: T) -> (r: SpinGuardedCell<T>)
        ensures
            r@ == fresh(initial),
    {
        SpinGuardedCell { core: LockCore::new(initial) }
    }

    /// Whether a guard of this cell is live.
    pub fn is_held(&self) -> (r: bool)
        ensures
            r == self@.held,
    {
        self.core.is_held()
    }

    /// Takes the lock, which must be free: an owner that already holds the
    /// guard would wait on itself forever.
    pub fn acquire(&mut self) -> (g: Guard<T>)
        requires
            !old(self)@.held,
        ensures
            final(self)@ == acquired(old(self)@),
            g.payload() == old(self)@.value,
            g.ticket() == final(self)@.epoch,
    {
        self.core.try_acquire().unwrap()
    }

    /// Takes the lock if it is free at this instant; gives nothing, and
    /// leaves the cell as it was, if a guard is live. Never waits.
    pub fn try_acquire(&mut self) -> (r: Option<Guard<T>>)
        ensures
            r is None <==> old(self)@.held,
            r is None ==> final(self)@ == old(self)@,
            r matches Some(g) ==> final(self)@ == acquired(old(self)@) && g.payload()
                == old(self)@.value && g.ticket() == final(self)@.epoch,
    {
        self.core.try_acquire()
    }

    /// One round of a spinning acquisition: the guard if the cell is free,
    /// else the instruction to relax the CPU for a moment and poll again.
    pub fn poll_acquire(&mut self) -> (r: Result<Guard<T>, Wait>)
        ensures
            r is Err <==> old(self)@.held,
            r matches Err(w) ==> w == Wait::Relax && final(self)@ == old(self)@,
            r matches Ok(g) ==> final(self)@ == acquired(old(self)@) && g.payload()
                == old(self)@.value && g.ticket() == final(self)@.epoch,
    {
        match self.core.try_acquire() {
            Some(g) => Ok(g),
            None => Err(Wait::Relax),
        }
    }

    /// Ends the guard's access: its payload becomes the cell's and the
    /// cell is free again.
    pub fn release(&mut self, g: Guard<T>)
        requires
            old(self)@.held,
            g.ticket() == old(self)@.epoch,
        ensures
            final(self)@ == released(old(self)@, g.payload()),
    {
        self.core.release(g)
    }

    /// Ends a free cell and hands out its payload.
    pub fn into_inner(self) -> (r: T)
        requires
            !self@.held,
        ensures
            r == self@.value,
    {
        self.core.into_inner()
    }
}

} // verus!
