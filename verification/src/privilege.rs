use vstd::prelude::*;

verus! {

/// The privilege modes of a hart, ordered by their architectural encoding.
#[derive(Clone, Copy, PartialEq, Eq, Structural, Debug)]
pub enum PrivilegeLevels {
    User,
    Supervisor,
    Machine,
}

impl PrivilegeLevels {
    /// The two-bit architectural encoding of the mode: 0, 1 or 3.
    pub open spec fn level(self) -> u64 {
        match self {
            PrivilegeLevels::User => 0,
            PrivilegeLevels::Supervisor => 1,
            PrivilegeLevels::Machine => 3,
        }
    }

    /// The mode that a two-bit field holds. The reserved encoding 2 and
    /// anything wider read as the least privileged mode.
    pub open spec fn from_level(bits: u64) -> PrivilegeLevels {
        if bits == 3 {
            PrivilegeLevels::Machine
        } else if bits == 1 {
            PrivilegeLevels::Supervisor
        } else {
            PrivilegeLevels::User
        }
    }

    pub fn to_bits(self) -> (r: u64)
        ensures
            r == self.level(),
            r <= 3,
    {
        match self {
            PrivilegeLevels::User => 0,
            PrivilegeLevels::Supervisor => 1,
            PrivilegeLevels::Machine => 3,
        }
    }

    pub fn from_bits(bits: u64) -> (p: PrivilegeLevels)
        ensures
            p == PrivilegeLevels::from_level(bits),
    {
        if bits == 3 {
            PrivilegeLevels::Machine
        } else if bits == 1 {
            PrivilegeLevels::Supervisor
        } else {
            PrivilegeLevels::User
        }
    }

    /// Whether this mode is at least as privileged as `other`.
    pub fn at_least(self, other: PrivilegeLevels) -> (r: bool)
        ensures
            r == (self.level() >= other.level()),
    {
        self.to_bits() >= other.to_bits()
    }
}

} // verus!
