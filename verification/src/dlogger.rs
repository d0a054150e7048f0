//! A hold counter for diagnostic output.
//!
//! A compound bus operation is made of several single transfers, each of
//! which would report itself. Whoever runs the compound operation takes a
//! hold before it and releases the hold after it; output is allowed only
//! while nobody holds. The counter has no bearing on what the accessors
//! compute.

use vstd::prelude::*;

verus! {

/// The count after one more hold. It wraps round to zero after `u32::MAX`
/// holds.
pub open spec fn spec_hold(count: u32) -> u32 {
    if count == u32::MAX {
        0
    } else {
        (count + 1) as u32
    }
}

/// The count after one release. Releasing what nobody holds changes
/// nothing.
pub open spec fn spec_release(count: u32) -> u32 {
    if count == 0 {
        0
    } else {
        (count - 1) as u32
    }
}

/// The hold counter.
#[derive(Debug)]
pub struct DLogger {
    pub hold_count: u32,
}

impl DLogger {
    /// A logger that nobody holds.
    pub fn new() -> (logger: Self)
        ensures
            logger.hold_count == 0,
            logger.spec_allowed(),
    {
        DLogger { hold_count: 0 }
    }

    /// Output is allowed while nobody holds the logger.
    pub open spec fn spec_allowed(&self) -> bool {
        self.hold_count == 0
    }

    /// Takes one more hold.
    pub fn hold(&mut self)
        ensures
            final(self).hold_count == spec_hold(old(self).hold_count),
    {
        self.hold_count = self.hold_count.wrapping_add(1);
    }

    /// Gives one hold back.
    pub fn release(&mut self)
        ensures
            final(self).hold_count == spec_release(old(self).hold_count),
    {
        if self.hold_count > 0 {
            self.hold_count = self.hold_count - 1;
        }
    }

    /// Whether output may be emitted.
    pub fn allowed(&self) -> (ok: bool)
        ensures
            ok == self.spec_allowed(),
    {
        self.hold_count == 0
    }
}

/// A hold followed by its release leaves the count as it was, and output is
/// held back in between, unless the hold made the counter wrap.
pub proof fn lemma_hold_release_balanced(count: u32)
    requires
        count < u32::MAX,
    ensures
        spec_release(spec_hold(count)) == count,
        spec_hold(count) != 0,
{
}

} // verus!
