//! What the library relies on about `soroban_sdk::Address`.
use soroban_sdk::Address;
use vstd::prelude::*;

verus! {

/// `soroban_sdk::Address`, carried through the library as an opaque value.
#[verifier::external_type_specification]
#[verifier::external_body]
pub struct ExAddress(soroban_sdk::Address);

/// `Address::clone` (derived in soroban-sdk): copies the environment handle and
/// the host object handle, so the clone is the same value.
pub assume_specification[ <soroban_sdk::Address as Clone>::clone ](a: &soroban_sdk::Address) -> (res: soroban_sdk::Address)
    ensures
        res == *a,
;

/// `==` on `soroban_sdk::Address` (`PartialEq::eq`, which compares the two
/// addresses through the host). Claimed: two identical values compare equal.
/// Not claimed: that values which are not identical compare unequal, since two
/// distinct handles may name the same address.
#[verifier::external_body]
pub(crate) fn same_address(a: &Address, b: &Address) -> (same: bool)
    ensures
        *a == *b ==> same,
{
    a == b
}

} // verus!
