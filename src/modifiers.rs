use vstd::prelude::*;

verus! {

/// A set of keyboard modifier keys.
#[derive(Clone, Copy, Debug, PartialEq, Eq, Structural)]
pub struct Modifiers {
    pub shift: bool,
    pub control: bool,
    pub alt: bool,
    pub logo: bool,
}

impl Modifiers {
    /// Whether every key of `keys` is held in `self`.
    pub open spec fn holds_all(self, keys: Modifiers) -> bool {
        &&& keys.shift ==> self.shift
        &&& keys.control ==> self.control
        &&& keys.alt ==> self.alt
        &&& keys.logo ==> self.logo
    }

    /// The set of no keys.
    pub open spec fn no_keys() -> Modifiers {
        Modifiers { shift: false, control: false, alt: false, logo: false }
    }

    /// The set of the control key alone.
    pub open spec fn ctrl_only() -> Modifiers {
        Modifiers { shift: false, control: true, alt: false, logo: false }
    }

    /// No key held.
    pub fn empty() -> (r: Modifiers)
        ensures
            r == Modifiers::no_keys(),
    {
        Modifiers { shift: false, control: false, alt: false, logo: false }
    }

    /// The control key alone.
    pub fn ctrl() -> (r: Modifiers)
        ensures
            r == Modifiers::ctrl_only(),
    {
        Modifiers { shift: false, control: true, alt: false, logo: false }
    }

    /// Whether all the keys of `keys` are held in `self`; true when `keys`
    /// is empty.
    pub fn contains(&self, keys: &Modifiers) -> (r: bool)
        ensures
            r == self.holds_all(*keys),
    {
        (!keys.shift || self.shift) && (!keys.control || self.control) && (!keys.alt || self.alt)
            && (!keys.logo || self.logo)
    }
}

} // verus!
