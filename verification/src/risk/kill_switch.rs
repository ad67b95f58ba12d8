//! The switch that, once thrown, stays thrown.
use vstd::prelude::*;

verus! {

/// An emergency switch.
pub struct KillSwitch {
    active: bool,
}

impl KillSwitch {
    pub closed spec fn thrown(&self) -> bool {
        self.active
    }

    pub fn new() -> (r: Self)
        ensures
            !r.thrown(),
    {
        KillSwitch { active: false }
    }

    /// Throws it.
    pub fn activate(&mut self)
        ensures
            final(self).thrown(),
    {
        self.active = true;
    }

    pub fn is_active(&self) -> (r: bool)
        ensures
            r == self.thrown(),
    {
        self.active
    }
}

} // verus!
