//! Laws of the locking protocol, stated over the model that both cell
//! variants share.
use vstd::prelude::*;

use crate::guard::{acquired, observed, released, LockView};
use crate::record::Pair;
use crate::sample::{fits, plus, updated};

verus! {

/// Mutual exclusion: once an acquisition has succeeded, any further attempt
/// finds the cell held and gets no guard, until the guard is released.
pub proof fn lemma_mutual_exclusion<T>(m: LockView<T>)
    ensures
        acquired(m).held,
        observed(acquired(m)) is None,
{
}

/// `n` guarded updates of one each, made one after another from the cell
/// `m`, whatever else was attempted between them.
pub open spec fn increments(m: LockView<Pair>, n: nat) -> LockView<Pair>
    decreases n,
{
    if n == 0 {
        m
    } else {
        updated(increments(m, (n - 1) as nat), 1, 1)
    }
}

/// No update is lost: `n` guarded increments of a free cell leave it free,
/// with each counter exactly `n` higher.
pub proof fn lemma_no_lost_updates(m: LockView<Pair>, n: nat)
    requires
        !m.held,
        m.value.a + n <= u32::MAX,
        m.value.b + n <= u32::MAX,
    ensures
        !increments(m, n).held,
        increments(m, n).value.a == m.value.a + n,
        increments(m, n).value.b == m.value.b + n,
    decreases n,
{
    if n > 0 {
        lemma_no_lost_updates(m, (n - 1) as nat);
    }
}

/// Release on exit: however the guarded section ended, giving the guard
/// back leaves the cell free, holding what the guard held.
pub proof fn lemma_release_frees<T>(m: LockView<T>, v: T)
    ensures
        !released(acquired(m), v).held,
        observed(released(acquired(m), v)) == Some(v),
        observed(released(m, v)) == Some(v),
{
}

/// An update under one acquisition is atomic: a reader that does not wait
/// sees the record before it, nothing while the guard is live, or the record
/// after it, never a mix of the two.
pub proof fn lemma_update_atomic(m: LockView<Pair>, da: u32, db: u32)
    requires
        !m.held,
        fits(m.value, da, db),
    ensures
        observed(m) == Some(m.value),
        observed(acquired(m)) is None,
        observed(updated(m, da, db)) == Some(plus(m.value, da, db)),
        plus(m.value, da, db).a == m.value.a + da,
        plus(m.value, da, db).b == m.value.b + db,
{
}

} // verus!
