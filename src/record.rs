//! A record of two counters, updated together under one guard.
use vstd::prelude::*;

verus! {

/// Two independent counters that the sample updates as one.
#[derive(Clone, Copy, Debug, PartialEq, Eq, Structural)]
pub struct Pair {
    pub a: u32,
    pub b: u32,
}

/// The pair with `da` added to `a` and `db` added to `b`, over unbounded integers.
pub open spec fn bumped(p: Pair, da: int, db: int) -> (int, int) {
    (p.a + da, p.b + db)
}

impl Pair {
    pub fn new(a: u32, b: u32) -> (r: Pair)
        ensures
            r.a == a,
            r.b == b,
    {
        Pair { a, b }
    }

    /// Adds `da` to `a` and `db` to `b`; both sums must fit in `u32`.
    pub fn bump(&mut self, da: u32, db: u32)
        requires
            old(self).a + da <= u32::MAX,
            old(self).b + db <= u32::MAX,
        ensures
            final(self).a == old(self).a + da,
            final(self).b == old(self).b + db,
    {
        self.a = self.a + da;
        self.b = self.b + db;
    }
}

} // verus!
