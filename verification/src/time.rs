//! Moments of a monotonic clock.

use vstd::prelude::*;

verus! {

/// The nanoseconds of a second.
pub const NANOS_PER_SEC: i64 = 1_000_000_000;

/// A moment of a monotonic clock, in nanoseconds from a fixed origin.
#[derive(Clone, Copy, Debug, PartialEq, Eq, Structural)]
pub struct Moment {
    pub nanos: i64,
}

impl Moment {
    /// The nanoseconds that have passed since `earlier`, zero where `earlier`
    /// is still to come.
    pub open spec fn spec_nanos_since(self, earlier: Moment) -> int {
        if self.nanos > earlier.nanos {
            self.nanos - earlier.nanos
        } else {
            0
        }
    }

    /// The nanoseconds that have passed since `earlier`, zero where `earlier`
    /// is still to come.
    pub fn nanos_since(&self, earlier: Moment) -> (r: u64)
        ensures
            r == self.spec_nanos_since(earlier),
    {
        if self.nanos > earlier.nanos {
            (self.nanos as i128 - earlier.nanos as i128) as u64
        } else {
            0
        }
    }

    /// The moment `secs` seconds before this one.
    pub fn before(&self, secs: u32) -> (r: Moment)
        requires
            self.nanos - secs * NANOS_PER_SEC >= i64::MIN,
        ensures
            r.nanos == self.nanos - secs * NANOS_PER_SEC,
    {
        Moment { nanos: self.nanos - secs as i64 * NANOS_PER_SEC }
    }

    /// The moment `secs` seconds after this one.
    pub fn after(&self, secs: u32) -> (r: Moment)
        requires
            self.nanos + secs * NANOS_PER_SEC <= i64::MAX,
        ensures
            r.nanos == self.nanos + secs * NANOS_PER_SEC,
    {
        Moment { nanos: self.nanos + secs as i64 * NANOS_PER_SEC }
    }
}

/// What has passed since an earlier moment leads from that moment to this one;
/// since a later moment nothing has passed.
pub proof fn law_what_has_passed_leads_to_now(now: Moment, earlier: Moment, r: u64)
    requires
        call_ensures(Moment::nanos_since, (&now, earlier), r),
    ensures
        earlier.nanos <= now.nanos ==> earlier.nanos + r == now.nanos,
        earlier.nanos > now.nanos ==> r == 0,
        now.spec_nanos_since(earlier) == r,
{
}

/// Going back and forth by as many seconds leads back to the same moment, and a
/// second has a thousand million nanoseconds.
pub proof fn law_seconds_back_and_forth(now: Moment, secs: u32, back: Moment, again: Moment)
    requires
        call_ensures(Moment::before, (&now, secs), back),
        call_ensures(Moment::after, (&back, secs), again),
    ensures
        again == now,
        back.nanos + secs * 1_000_000_000 == now.nanos,
{
}

} // verus!
