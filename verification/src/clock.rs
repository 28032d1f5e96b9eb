//! The clock that bounds a query.

use vstd::prelude::*;
use std::time::Duration;
use std::time::Instant;

verus! {

/// `std::time::Instant`, carried through unopened.
#[verifier::external_type_specification]
#[verifier::external_body]
pub struct ExInstant(Instant);

/// The span of `ms` milliseconds: what `Duration::from_millis` returns.
pub uninterp spec fn millis(ms: u64) -> Duration;

/// `Duration::from_millis`: the span of `ms` milliseconds, the same for the
/// same number.
#[verifier::external_body]
pub(crate) fn from_millis(ms: u64) -> (d: Duration)
    ensures
        d == millis(ms),
{
    Duration::from_millis(ms)
}

/// `Instant::now`: the present moment. Nothing is claimed of it.
#[verifier::external_body]
pub(crate) fn now() -> Instant {
    Instant::now()
}

/// `Instant::elapsed`: the time that has passed since `start`. Nothing is
/// claimed of it.
#[verifier::external_body]
pub(crate) fn elapsed(start: &Instant) -> Duration {
    start.elapsed()
}

/// Whether `span` is longer than `limit`: what the operator `>` of
/// `Duration` returns.
pub uninterp spec fn longer(span: Duration, limit: Duration) -> bool;

/// The operator `>` of `Duration`: whether `span` is longer than `limit`,
/// the same for the same two spans.
#[verifier::external_body]
pub(crate) fn exceeds(span: &Duration, limit: &Duration) -> (b: bool)
    ensures
        b == longer(*span, *limit),
{
    span > limit
}

/// The time allowed for a piece of work, counted from the moment the
/// deadline was made, together with the record of the readings of the
/// clock that were held against it: the time that had passed at each.
pub struct Deadline {
    start: Instant,
    allowed: Duration,
    readings: Ghost<Seq<Duration>>,
}

impl Deadline {
    /// The time allowed.
    pub closed spec fn allowed(&self) -> Duration {
        self.allowed
    }

    /// The time that had passed at each reading of the clock, in order.
    pub closed spec fn readings(&self) -> Seq<Duration> {
        self.readings@
    }

    /// A deadline that passes once more than `allowed` has gone by from
    /// now.
    pub fn after(allowed: Duration) -> (deadline: Deadline)
        ensures
            deadline.allowed() == allowed,
            deadline.readings() == Seq::<Duration>::empty(),
    {
        Deadline { start: now(), allowed, readings: Ghost(Seq::empty()) }
    }

    /// Reads the clock and says whether the deadline has passed: whether
    /// the time gone by since the deadline was made is longer than the time
    /// allowed. The reading is entered in the record.
    pub fn passed(&mut self) -> (passed: bool)
        ensures
            final(self).allowed() == old(self).allowed(),
            final(self).readings().len() == old(self).readings().len() + 1,
            final(self).readings().drop_last() == old(self).readings(),
            passed == longer(final(self).readings().last(), final(self).allowed()),
    {
        let spent = elapsed(&self.start);
        proof {
            self.readings@ = self.readings@.push(spent);
            assert(self.readings@.drop_last() =~= old(self).readings@);
        }
        exceeds(&spent, &self.allowed)
    }
}

} // verus!
