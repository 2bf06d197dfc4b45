use vstd::prelude::*;

verus! {

/// A 160-bit account identity, held as a high and a low part so that the
/// whole range of an account identifier fits in plain machine integers.
///
/// The all-zero identity is reserved as the null identity: it can never be
/// installed as an owner.
#[derive(Clone, Copy, PartialEq, Eq, Structural, Debug)]
pub struct Address {
    pub hi: u32,
    pub lo: u128,
}

impl Address {
    /// Whether this is the reserved null identity.
    pub open spec fn spec_is_null(self) -> bool {
        self.hi == 0 && self.lo == 0
    }

    pub fn new(hi: u32, lo: u128) -> (a: Address)
        ensures
            a.hi == hi,
            a.lo == lo,
    {
        Address { hi, lo }
    }

    /// The null identity.
    pub fn zero() -> (a: Address)
        ensures
            a.spec_is_null(),
    {
        Address { hi: 0, lo: 0 }
    }

    pub fn is_null(&self) -> (r: bool)
        ensures
            r == self.spec_is_null(),
    {
        self.hi == 0 && self.lo == 0
    }
}

} // verus!
