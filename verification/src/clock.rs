use vstd::prelude::*;

verus! {

/// Number of seconds in one whole day.
pub const SECONDS_PER_DAY: u64 = 86400;

/// The clock a time-shifted certificate verifier consults: it advances the
/// real instant by a fixed offset, so that a certificate chain presented
/// today is judged as it would be `offset_secs` seconds from now. The offset
/// is the only state; the clock is immutable for the whole run.
#[derive(Clone, Copy, PartialEq, Eq, Structural, Debug)]
pub struct ShiftedClock {
    pub offset_secs: u64,
}

impl ShiftedClock {
    /// A clock shifted forward by the given number of whole days.
    pub fn new(days: u32) -> (c: ShiftedClock)
        ensures
            c.offset_secs == days as u64 * SECONDS_PER_DAY,
    {
        ShiftedClock { offset_secs: days as u64 * SECONDS_PER_DAY }
    }

    /// The instant the verifier is told it is, given the real instant in
    /// seconds: `None` exactly when the shifted instant is not representable.
    pub open spec fn spec_shift(&self, now_secs: u64) -> Option<u64> {
        if now_secs + self.offset_secs <= u64::MAX {
            Some((now_secs + self.offset_secs) as u64)
        } else {
            None
        }
    }

    /// Advance the real instant by this clock's offset.
    pub fn shift(&self, now_secs: u64) -> (shifted: Option<u64>)
        ensures
            shifted == self.spec_shift(now_secs),
    {
        if now_secs <= u64::MAX - self.offset_secs {
            Some(now_secs + self.offset_secs)
        } else {
            None
        }
    }

    /// Shifting the clock is the run's only intervention, and it is exact:
    /// whenever the shifted instant is representable, the verifier is handed
    /// the real instant advanced by precisely the configured offset, so its
    /// decision is the one a real client would reach at that future instant.
    pub proof fn lemma_shift_is_exact(&self, now_secs: u64)
        requires
            now_secs + self.offset_secs <= u64::MAX,
        ensures
            self.spec_shift(now_secs) == Some((now_secs + self.offset_secs) as u64),
    {
    }

    /// A clock with no offset hands the real instant through unchanged: a
    /// zero-day look-ahead checks exactly what an ordinary client checks.
    pub proof fn lemma_zero_offset_identity(&self, now_secs: u64)
        requires
            self.offset_secs == 0,
        ensures
            self.spec_shift(now_secs) == Some(now_secs),
    {
    }
}

} // verus!
