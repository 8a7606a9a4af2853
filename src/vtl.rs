//! Virtual trust levels.
use vstd::prelude::*;

verus! {

/// A virtual trust level of the partition.
#[derive(Clone, Copy, Debug, PartialEq, Eq, Structural)]
pub enum Vtl {
    Vtl0,
    Vtl1,
    Vtl2,
}

/// The target-VTL byte that selects the caller's own trust level.
pub const CURRENT_VTL: u8 = 0;

/// The bit of a target-VTL byte that says the low four bits name the level.
pub const USE_TARGET_VTL: u8 = 0x10;

impl Vtl {
    /// The numeric level.
    pub open spec fn level(self) -> u8 {
        match self {
            Vtl::Vtl0 => 0,
            Vtl::Vtl1 => 1,
            Vtl::Vtl2 => 2,
        }
    }

    /// Guest code runs only at these levels.
    pub open spec fn is_guest_level(self) -> bool {
        self != Vtl::Vtl2
    }

    /// The numeric level of this trust level.
    pub fn as_u8(self) -> (r: u8)
        ensures
            r == self.level(),
    {
        match self {
            Vtl::Vtl0 => 0,
            Vtl::Vtl1 => 1,
            Vtl::Vtl2 => 2,
        }
    }

    /// The trust level with the given number, if there is one.
    pub fn from_u8(v: u8) -> (r: Option<Vtl>)
        ensures
            v <= 2 ==> r is Some && r->0.level() == v,
            v > 2 ==> r is None,
    {
        match v {
            0 => Some(Vtl::Vtl0),
            1 => Some(Vtl::Vtl1),
            2 => Some(Vtl::Vtl2),
            _ => None,
        }
    }

    /// The target-VTL byte of a hypercall input that names this level explicitly.
    pub fn input_vtl(self) -> (r: u8)
        ensures
            r == self.level() + USE_TARGET_VTL,
            r & 0xf == self.level(),
            r & USE_TARGET_VTL == USE_TARGET_VTL,
    {
        let l = self.as_u8();
        let r = l | USE_TARGET_VTL;
        assert(l <= 2 ==> (l | 0x10u8) == l + 0x10 && (l | 0x10u8) & 0xf == l && (l | 0x10u8)
            & 0x10 == 0x10) by (bit_vector);
        r
    }
}

} // verus!
