//! The two condition flags the simulator models: zero and sign.

use vstd::prelude::*;

verus! {

/// Zero flag and sign flag, derived from the signed 16-bit result of the
/// most recent flag-updating operation.
#[derive(Clone, Copy, Debug, PartialEq, Eq, Structural)]
pub struct Flags {
    pub zf: bool,
    pub sf: bool,
}

/// The flags a signed 16-bit result produces: zero exactly when the
/// result is zero, sign exactly when it is negative.
pub open spec fn spec_flags_for(number: i16) -> Flags {
    Flags { zf: number == 0, sf: number < 0 }
}

impl Flags {
    /// Recompute both flags from a signed 16-bit result.
    pub fn update_from_number(&mut self, number: i16)
        ensures
            *final(self) == spec_flags_for(number),
            final(self).zf == (number == 0),
            final(self).sf == (number < 0),
    {
        self.zf = number == 0;
        self.sf = number < 0;
    }
}

} // verus!
