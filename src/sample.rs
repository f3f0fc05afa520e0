//! The lock sample: one record behind each kind of cell, updated once under
//! a guard and read back, best effort, when the sample shuts down.
use vstd::prelude::*;

use crate::blocking::BlockingGuardedCell;
use crate::guard::{acquired, fresh, observed, released, LockView};
use crate::record::Pair;
use crate::spin::SpinGuardedCell;

verus! {

/// Starting values of the record behind the blocking cell.
pub const MTX_INIT_A: u32 = 5;
pub const MTX_INIT_B: u32 = 10;
/// Starting values of the record behind the spin cell.
pub const SPIN_INIT_A: u32 = 3;
pub const SPIN_INIT_B: u32 = 6;
/// What one guarded operation adds through the blocking cell.
pub const MTX_STEP_A: u32 = 10;
pub const MTX_STEP_B: u32 = 20;
/// What one guarded operation adds through the spin cell.
pub const SPIN_STEP_A: u32 = 9;
pub const SPIN_STEP_B: u32 = 14;

/// The record `p` with `da` and `db` added, where both sums fit in `u32`.
pub open spec fn plus(p: Pair, da: u32, db: u32) -> Pair {
    Pair { a: (p.a + da) as u32, b: (p.b + db) as u32 }
}

/// Whether one guarded update of `da`, `db` can be applied to `p` without
/// overflow.
pub open spec fn fits(p: Pair, da: u32, db: u32) -> bool {
    p.a + da <= u32::MAX && p.b + db <= u32::MAX
}

/// The cell after one guarded update that adds `da`, `db` to its record.
pub open spec fn updated(m: LockView<Pair>, da: u32, db: u32) -> LockView<Pair> {
    released(acquired(m), plus(m.value, da, db))
}

/// The cell after a non-blocking read: taken and given back unchanged when
/// it was free, untouched when it was held.
pub open spec fn peeked(m: LockView<Pair>) -> LockView<Pair> {
    if m.held {
        m
    } else {
        released(acquired(m), m.value)
    }
}

/// One guarded update through a blocking cell.
pub fn update_blocking(cell: &mut BlockingGuardedCell<Pair>, da: u32, db: u32)
    requires
        !old(cell)@.held,
        fits(old(cell)@.value, da, db),
    ensures
        final(cell)@ == updated(old(cell)@, da, db),
{
    let mut g = cell.acquire();
    let mut p = *g.value();
    p.bump(da, db);
    g.set(p);
    cell.release(g);
}

/// One guarded update through a spin cell.
pub fn update_spin(cell: &mut SpinGuardedCell<Pair>, da: u32, db: u32)
    requires
        !old(cell)@.held,
        fits(old(cell)@.value, da, db),
    ensures
        final(cell)@ == updated(old(cell)@, da, db),
{
    let mut g = cell.acquire();
    let mut p = *g.value();
    p.bump(da, db);
    g.set(p);
    cell.release(g);
}

/// Reads a blocking cell's record if no guard of it is live; gives nothing
/// otherwise, without waiting.
pub fn peek_blocking(cell: &mut BlockingGuardedCell<Pair>) -> (r: Option<Pair>)
    ensures
        r == observed(old(cell)@),
        final(cell)@ == peeked(old(cell)@),
{
    match cell.try_acquire() {
        Some(g) => {
            let p = *g.value();
            cell.release(g);
            Some(p)
        },
        None => None,
    }
}

/// Reads a spin cell's record if no guard of it is live; gives nothing
/// otherwise, without waiting.
pub fn peek_spin(cell: &mut SpinGuardedCell<Pair>) -> (r: Option<Pair>)
    ensures
        r == observed(old(cell)@),
        final(cell)@ == peeked(old(cell)@),
{
    match cell.try_acquire() {
        Some(g) => {
            let p = *g.value();
            cell.release(g);
            Some(p)
        },
        None => None,
    }
}

/// The two cells of the sample. Every operation of the sample leaves both
/// free, so no guard outlives a call.
pub struct LockSample {
    mtx: BlockingGuardedCell<Pair>,
    spin: SpinGuardedCell<Pair>,
}

/// What the sample reads back as it shuts down: each record, or nothing
/// where its cell was held.
#[derive(Clone, Copy, Debug, PartialEq, Eq, Structural)]
pub struct ShutdownReport {
    pub mtx: Option<Pair>,
    pub spin: Option<Pair>,
}

impl LockSample {
    /// The blocking cell as it stands.
    pub closed spec fn mtx_view(&self) -> LockView<Pair> {
        self.mtx@
    }

    /// The spin cell as it stands.
    pub closed spec fn spin_view(&self) -> LockView<Pair> {
        self.spin@
    }

    /// Both cells are free.
    pub open spec fn wf(&self) -> bool {
        !self.mtx_view().held && !self.spin_view().held
    }

    /// Builds both cells around their starting records, each fully formed
    /// before it is handed out.
    pub fn start() -> (r: LockSample)
        ensures
            r.wf(),
            r.mtx_view() == fresh(Pair { a: MTX_INIT_A, b: MTX_INIT_B }),
            r.spin_view() == fresh(Pair { a: SPIN_INIT_A, b: SPIN_INIT_B }),
    {
        let mtx = BlockingGuardedCell::new(Pair::new(MTX_INIT_A, MTX_INIT_B));
        let spin = SpinGuardedCell::new(Pair::new(SPIN_INIT_A, SPIN_INIT_B));
        LockSample { mtx, spin }
    }

    /// One guarded update of the blocking cell's record by its step.
    pub fn example_mtx_operation(&mut self)
        requires
            old(self).wf(),
            fits(old(self).mtx_view().value, MTX_STEP_A, MTX_STEP_B),
        ensures
            final(self).wf(),
            final(self).mtx_view() == updated(old(self).mtx_view(), MTX_STEP_A, MTX_STEP_B),
            final(self).spin_view() == old(self).spin_view(),
    {
        update_blocking(&mut self.mtx, MTX_STEP_A, MTX_STEP_B);
    }

    /// One guarded update of the spin cell's record by its step.
    pub fn example_spin_operation(&mut self)
        requires
            old(self).wf(),
            fits(old(self).spin_view().value, SPIN_STEP_A, SPIN_STEP_B),
        ensures
            final(self).wf(),
            final(self).spin_view() == updated(old(self).spin_view(), SPIN_STEP_A, SPIN_STEP_B),
            final(self).mtx_view() == old(self).mtx_view(),
    {
        update_spin(&mut self.spin, SPIN_STEP_A, SPIN_STEP_B);
    }

    /// Reads both records without waiting.
    pub fn report(&mut self) -> (r: ShutdownReport)
        ensures
            r.mtx == observed(old(self).mtx_view()),
            r.spin == observed(old(self).spin_view()),
            final(self).mtx_view() == peeked(old(self).mtx_view()),
            final(self).spin_view() == peeked(old(self).spin_view()),
    {
        let mtx = peek_blocking(&mut self.mtx);
        let spin = peek_spin(&mut self.spin);
        ShutdownReport { mtx, spin }
    }

    /// Ends the sample: one last guarded update of each record, then a
    /// best-effort read of both. Taking the sample by value makes this the
    /// last call it can receive.
    pub fn shutdown(self) -> (r: ShutdownReport)
        requires
            self.wf(),
            fits(self.mtx_view().value, MTX_STEP_A, MTX_STEP_B),
            fits(self.spin_view().value, SPIN_STEP_A, SPIN_STEP_B),
        ensures
            r.mtx == Some(plus(self.mtx_view().value, MTX_STEP_A, MTX_STEP_B)),
            r.spin == Some(plus(self.spin_view().value, SPIN_STEP_A, SPIN_STEP_B)),
    {
        let mut s = self;
        s.example_mtx_operation();
        s.example_spin_operation();
        s.report()
    }
}

} // verus!
