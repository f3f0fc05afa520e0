//! The state a guarded cell goes through, the guard it hands out, and the
//! lock core that both cell variants are built on.
use vstd::prelude::*;

verus! {

/// What a cell is at one instant: whether a guard is live, the payload as
/// last released (while a guard is live, the guard holds the current one),
/// and the number of acquisitions so far, counted modulo 2^64.
pub struct LockView<T> {
    pub held: bool,
    pub value: T,
    pub epoch: u64,
}

/// The epoch that follows `e`: one more, wrapping to zero after `u64::MAX`.
pub open spec fn next_epoch(e: u64) -> u64 {
    if e == u64::MAX {
        0
    } else {
        (e + 1) as u64
    }
}

/// A free cell that was just built around `value`.
pub open spec fn fresh<T>(value: T) -> LockView<T> {
    LockView { held: false, value, epoch: 0 }
}

/// The cell after a successful acquisition: held, in a new epoch.
pub open spec fn acquired<T>(m: LockView<T>) -> LockView<T> {
    LockView { held: true, value: m.value, epoch: next_epoch(m.epoch) }
}

/// The cell after its guard gave back `v`: free again, holding `v`.
pub open spec fn released<T>(m: LockView<T>, v: T) -> LockView<T> {
    LockView { held: false, value: v, epoch: m.epoch }
}

/// What a non-blocking attempt sees of the cell: the payload when it is
/// free, nothing while a guard is live.
pub open spec fn observed<T>(m: LockView<T>) -> Option<T> {
    if m.held {
        None
    } else {
        Some(m.value)
    }
}

/// What an acquisition that finds the cell held asks its caller to do
/// before polling again.
#[derive(Clone, Copy, Debug, PartialEq, Eq, Structural)]
pub enum Wait {
    /// Suspend the calling thread until the holder releases.
    Park,
    /// Stay on the CPU, hint that this is a busy-wait, and poll again.
    Relax,
}

/// Exclusive, temporary access to a cell's payload. The payload lives in
/// the guard while it is out, so no other access to it can exist.
pub struct Guard<T> {
    payload: T,
    ticket: u64,
}

impl<T> Guard<T> {
    /// The payload as the guard holds it now.
    pub closed spec fn payload(&self) -> T {
        self.payload
    }

    /// The epoch of the acquisition that produced this guard.
    pub closed spec fn ticket(&self) -> u64 {
        self.ticket
    }

    /// Read access to the payload.
    pub fn value(&self) -> (r: &T)
        ensures
            *r == self.payload(),
    {
        &self.payload
    }

    /// Writes a new payload through the guard.
    pub fn set(&mut self, v: T)
        ensures
            final(self).payload() == v,
            final(self).ticket() == old(self).ticket(),
    {
        self.payload = v;
    }
}

/// The lock that both cell variants share: the payload sits in `slot` while
/// the cell is free and in the guard while it is held.
pub struct LockCore<T> {
    slot: Option<T>,
    epoch: u64,
    last: Ghost<T>,
}

impl<T> View for LockCore<T> {
    type V = LockView<T>;

    closed spec fn view(&self) -> LockView<T> {
        LockView {
            held: self.slot is None,
            value: match self.slot {
                Some(v) => v,
                None => self.last@,
            },
            epoch: self.epoch,
        }
    }
}

impl<T> LockCore<T> {
    pub fn new(initial: T) -> (r: LockCore<T>)
        ensures
            r@ == fresh(initial),
    {
        LockCore { slot: Some(initial), epoch: 0, last: Ghost(initial) }
    }

    pub fn is_held(&self) -> (r: bool)
        ensures
            r == self@.held,
    {
        self.slot.is_none()
    }

    /// Takes the payload out of a free cell and wraps it in a guard.
    pub fn try_acquire(&mut self) -> (r: Option<Guard<T>>)
        ensures
            r is None <==> old(self)@.held,
            r is None ==> final(self)@ == old(self)@,
            r matches Some(g) ==> final(self)@ == acquired(old(self)@) && g.payload()
                == old(self)@.value && g.ticket() == final(self)@.epoch,
    {
        match self.slot.take() {
            Some(v) => {
                self.last = Ghost(v);
                self.epoch = if self.epoch == u64::MAX {
                    0
                } else {
                    self.epoch + 1
                };
                Some(Guard { payload: v, ticket: self.epoch })
            },
            None => None,
        }
    }

    /// Puts the guard's payload back and frees the cell.
    pub fn release(&mut self, g: Guard<T>)
        requires
            old(self)@.held,
            g.ticket() == old(self)@.epoch,
        ensures
            final(self)@ == released(old(self)@, g.payload()),
    {
        self.slot = Some(g.payload);
        self.last = Ghost(g.payload);
    }

    /// Hands the payload out of a free cell, ending the cell.
    pub fn into_inner(self) -> (r: T)
        requires
            !self@.held,
        ensures
            r == self@.value,
    {
        self.slot.unwrap()
    }
}

} // verus!
