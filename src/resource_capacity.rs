use vstd::prelude::*;

use crate::text::{decimal, push_decimal, to_decimal};

verus! {

/// The sector size that every LVM2 capacity is a multiple of.
pub const SECTOR_SIZE: usize = 512;

/// The smallest multiple of 512 that is at least `c`.
pub open spec fn round_up_512(c: nat) -> nat {
    if c % 512 == 0 {
        c
    } else {
        (c - c % 512 + 512) as nat
    }
}

/// Finds the next nearest valid size multiple for an LVM construct.
pub fn nearest_size_multiple(x: usize) -> (r: usize)
    requires
        x <= usize::MAX - 511,
    ensures
        r == round_up_512(x as nat),
{
    let rem = x % SECTOR_SIZE;
    if rem == 0 {
        x
    } else {
        x - rem + SECTOR_SIZE
    }
}

/// A valid resource capacity for LVM2: a byte count that is a multiple of 512.
#[derive(Clone, Copy, Debug, PartialEq, Eq, Structural)]
pub struct ResourceCapacity(usize);

impl View for ResourceCapacity {
    type V = nat;

    closed spec fn view(&self) -> nat {
        self.0 as nat
    }
}

impl ResourceCapacity {
    #[verifier::type_invariant]
    closed spec fn sector_aligned(self) -> bool {
        self.0 % 512 == 0
    }

    /// Create a [ResourceCapacity], rounding up to the nearest valid multiple.
    pub fn from_nearest(capacity: usize) -> (r: Self)
        requires
            capacity <= usize::MAX - 511,
        ensures
            r@ == round_up_512(capacity as nat),
    {
        ResourceCapacity(nearest_size_multiple(capacity))
    }

    /// Create a [ResourceCapacity] from a byte count that must already be a multiple of 512.
    pub fn new(capacity: usize) -> (r: Result<Self, InvalidResourceCapacityError>)
        ensures
            capacity % 512 == 0 <==> r is Ok,
            r matches Ok(c) ==> c@ == capacity,
            r matches Err(e) ==> e.0 == capacity,
    {
        if capacity % SECTOR_SIZE != 0 {
            return Err(InvalidResourceCapacityError(capacity));
        }
        Ok(ResourceCapacity(capacity))
    }

    /// The number of bytes, in decimal.
    pub fn to_string(&self) -> (r: String)
        ensures
            r@ == decimal(self@),
    {
        to_decimal(self.0)
    }

    /// The number of bytes.
    pub fn bytes(&self) -> (r: usize)
        ensures
            r == self@,
            r % 512 == 0,
    {
        proof {
            use_type_invariant(self);
        }
        self.0
    }
}

/// The capacity of `v` bytes.
pub closed spec fn capacity_of(v: usize) -> ResourceCapacity {
    ResourceCapacity(v)
}

/// The capacity of `v` bytes holds `v` bytes.
pub broadcast proof fn lemma_capacity_of(v: usize)
    ensures
        (#[trigger] capacity_of(v))@ == v,
{
}

impl TryFrom<usize> for ResourceCapacity {
    type Error = InvalidResourceCapacityError;

    fn try_from(value: usize) -> (r: Result<Self, Self::Error>) {
        ResourceCapacity::new(value)
    }
}

impl vstd::std_specs::convert::TryFromSpecImpl<usize> for ResourceCapacity {
    open spec fn obeys_try_from_spec() -> bool {
        true
    }

    open spec fn try_from_spec(v: usize) -> Result<Self, Self::Error> {
        if v % 512 == 0 {
            Ok(capacity_of(v))
        } else {
            Err(InvalidResourceCapacityError(v))
        }
    }
}

impl TryFrom<u64> for ResourceCapacity {
    type Error = InvalidResourceCapacityError;

    fn try_from(value: u64) -> (r: Result<Self, Self::Error>) {
        if value > usize::MAX as u64 {
            return Err(InvalidResourceCapacityError(usize::MAX));
        }
        ResourceCapacity::new(value as usize)
    }
}

impl vstd::std_specs::convert::TryFromSpecImpl<u64> for ResourceCapacity {
    open spec fn obeys_try_from_spec() -> bool {
        true
    }

    open spec fn try_from_spec(v: u64) -> Result<Self, Self::Error> {
        if v > usize::MAX {
            Err(InvalidResourceCapacityError(usize::MAX))
        } else if v % 512 == 0 {
            Ok(capacity_of(v as usize))
        } else {
            Err(InvalidResourceCapacityError(v as usize))
        }
    }
}

/// Every capacity rounded up is a multiple of 512, no smaller than what it rounds, and
/// rounding it again changes nothing.
pub proof fn lemma_round_up(c: nat)
    ensures
        round_up_512(c) % 512 == 0,
        round_up_512(c) >= c,
        round_up_512(round_up_512(c)) == round_up_512(c),
{
}

/// The error of a capacity that is not a multiple of 512.
#[derive(Debug, Clone, Copy, PartialEq, Eq, Structural)]
pub struct InvalidResourceCapacityError(pub usize);

impl InvalidResourceCapacityError {
    /// Describes the error, with the nearest valid capacity.
    pub fn to_string(&self) -> (r: String)
        ensures
            r@ == "capacity must be valid for LVM2 (multiple of 512): "@ + decimal(self.0 as nat)
                + " != "@ + decimal(round_up_512(self.0 as nat)) + " (nearest 512 multiple)"@,
    {
        let v = self.0 as u128;
        let rem = v % 512;
        let nearest = if rem == 0 {
            v
        } else {
            v - rem + 512
        };
        let mut r = String::from_str("capacity must be valid for LVM2 (multiple of 512): ");
        push_decimal(&mut r, v);
        r.append(" != ");
        push_decimal(&mut r, nearest);
        r.append(" (nearest 512 multiple)");
        r
    }
}

} // verus!
