//! Bus addresses and their rotation order.

use vstd::prelude::*;

verus! {

/// Number of addresses on the bus; the successor of the last one is the first.
pub const ADDRESS_SPACE: u8 = 16;

/// Identifier of a device on the bus. Addresses are ordered by their number.
#[derive(Clone, Copy, Debug, PartialEq, Eq, PartialOrd, Ord, Hash, Structural)]
pub struct Address {
    pub value: u8,
}

impl Address {
    /// The number behind the address.
    pub open spec fn index(self) -> int {
        self.value as int
    }

    /// An address is valid when it lies inside the address space.
    pub open spec fn wf(self) -> bool {
        0 <= self.index() < ADDRESS_SPACE
    }

    /// The address that follows `self` in the rotation.
    pub open spec fn successor(self) -> Address {
        Address { value: ((self.value + 1) % (ADDRESS_SPACE as int)) as u8 }
    }

    /// Makes the address with the given number, if there is one.
    pub fn new(value: u8) -> (r: Option<Address>)
        ensures
            r == (if value < ADDRESS_SPACE {
                Some(Address { value })
            } else {
                None
            }),
    {
        if value < ADDRESS_SPACE {
            Some(Address { value })
        } else {
            None
        }
    }

    /// The address at which the rotation starts.
    pub fn first() -> (r: Address)
        ensures
            r == (Address { value: 0 }),
    {
        Address { value: 0 }
    }

    /// The address of this node.
    pub fn device() -> (r: Address)
        ensures
            r == (Address { value: crate::DEVICE_ADDRESS }),
    {
        Address { value: crate::DEVICE_ADDRESS }
    }

    /// The address whose turn comes after this one.
    pub fn next(self) -> (r: Address)
        requires
            self.wf(),
        ensures
            r.wf(),
            r == self.successor(),
    {
        if self.value + 1 < ADDRESS_SPACE {
            Address { value: self.value + 1 }
        } else {
            Address { value: 0 }
        }
    }

    /// The number behind the address.
    pub fn value(self) -> (r: u8)
        ensures
            r == self.index(),
    {
        self.value
    }
}

/// The address reached from `start` after `steps` successor steps.
pub open spec fn rotate(start: Address, steps: nat) -> Address
    decreases steps,
{
    if steps == 0 {
        start
    } else {
        rotate(start, (steps - 1) as nat).successor()
    }
}

/// Successor steps add up modulo the size of the address space.
pub proof fn rotate_is_addition(start: Address, steps: nat)
    requires
        start.wf(),
    ensures
        rotate(start, steps).wf(),
        rotate(start, steps).index() == (start.index() + steps) % (ADDRESS_SPACE as int),
    decreases steps,
{
    if steps > 0 {
        rotate_is_addition(start, (steps - 1) as nat);
    }
}

/// The rotation that starts at the first address visits every valid address:
/// address number `n` is reached after exactly `n` steps.
pub proof fn rotation_visits_every_address(target: Address)
    requires
        target.wf(),
    ensures
        rotate(Address { value: 0 }, target.index() as nat) == target,
{
    rotate_is_addition(Address { value: 0 }, target.index() as nat);
}

/// The rotation cycles: from any valid address, one full round of successor
/// steps leads back to it, and no shorter round does.
pub proof fn rotation_cycles(start: Address, steps: nat)
    requires
        start.wf(),
    ensures
        rotate(start, ADDRESS_SPACE as nat) == start,
        0 < steps < ADDRESS_SPACE ==> rotate(start, steps) != start,
{
    rotate_is_addition(start, ADDRESS_SPACE as nat);
    rotate_is_addition(start, steps);
}

} // verus!
