use vstd::prelude::*;

verus! {

/// A protocol time unit. `Epoch(u64::MAX)` is the "far future" sentinel,
/// which stands for a lifecycle event that has not been scheduled.
#[derive(Clone, Copy, Debug, PartialEq, Eq, Structural, Hash)]
pub struct Epoch(pub u64);

impl Epoch {
    pub fn new(e: u64) -> (r: Epoch)
        ensures
            r.0 == e,
    {
        Epoch(e)
    }

    pub fn as_u64(&self) -> (r: u64)
        ensures
            r == self.0,
    {
        self.0
    }
}

/// Epoch arithmetic saturates at the bounds of `u64`.
impl core::ops::Add<u64> for Epoch {
    type Output = Epoch;

    fn add(self, rhs: u64) -> Epoch {
        Epoch(self.0.saturating_add(rhs))
    }
}

impl vstd::std_specs::ops::AddSpecImpl<u64> for Epoch {
    open spec fn obeys_add_spec() -> bool {
        true
    }

    open spec fn add_req(self, rhs: u64) -> bool {
        true
    }

    open spec fn add_spec(self, rhs: u64) -> Epoch {
        Epoch(self.0.saturating_add(rhs))
    }
}

impl core::ops::Sub<u64> for Epoch {
    type Output = Epoch;

    fn sub(self, rhs: u64) -> Epoch {
        Epoch(self.0.saturating_sub(rhs))
    }
}

impl vstd::std_specs::ops::SubSpecImpl<u64> for Epoch {
    open spec fn obeys_sub_spec() -> bool {
        true
    }

    open spec fn sub_req(self, rhs: u64) -> bool {
        true
    }

    open spec fn sub_spec(self, rhs: u64) -> Epoch {
        Epoch(self.0.saturating_sub(rhs))
    }
}

} // verus!
