//! Items of the outside crates (`candid`, `icrc-ledger-types`) that the
//! library uses, with the contracts that the library relies on.
use vstd::prelude::*;

use candid::Principal;
use icrc_ledger_types::icrc1::account::Account;

verus! {

/// An Internet Computer principal (`candid::Principal`), carried through the
/// library as an opaque value.
#[verifier::external_type_specification]
#[verifier::external_body]
pub struct ExPrincipal(Principal);

/// The principal that `Principal::from_slice` builds from the given bytes.
pub uninterp spec fn principal_from_bytes(bytes: Seq<u8>) -> Principal;

/// `Principal::eq` is the derived field-by-field equality of the
/// principal's length and byte buffer, so it agrees with equality of values.
pub assume_specification[ <Principal as PartialEq>::eq ](a: &Principal, b: &Principal) -> (r: bool)
    ensures
        r == (*a == *b),
;

/// Calls `Principal::from_slice`, which copies the bytes into a principal of
/// that length.  It panics on more than 29 bytes, which `requires` rules out.
#[verifier::external_body]
pub(crate) fn principal_from_slice(bytes: &[u8]) -> (r: Principal)
    requires
        bytes@.len() <= 29,
    ensures
        r == principal_from_bytes(bytes@),
{
    Principal::from_slice(bytes)
}

/// Builds the anonymous principal, the one-byte principal `[4]`.
pub(crate) fn anonymous_principal() -> (r: Principal)
    ensures
        r == principal_from_bytes(seq![4u8]),
{
    let mut tag: Vec<u8> = Vec::new();
    tag.push(4u8);
    proof {
        assert(tag@ =~= seq![4u8]);
    }
    principal_from_slice(tag.as_slice())
}

/// The subaccount that an ICRC-1 account stands for: a missing subaccount is
/// the all-zero subaccount.
pub open spec fn effective_subaccount(sub: Option<[u8; 32]>) -> Seq<u8> {
    match sub {
        Some(bytes) => bytes@,
        None => Seq::new(32, |i: int| 0u8),
    }
}

/// Compares two ICRC-1 accounts with `icrc_ledger_types::icrc1::account::Account::eq`.
/// Its source compares the owners and the effective subaccounts (a missing
/// subaccount equals the all-zero one), which is what the contract states.
#[verifier::external_body]
pub fn accounts_equal(
    owner_a: Principal,
    sub_a: Option<[u8; 32]>,
    owner_b: Principal,
    sub_b: Option<[u8; 32]>,
) -> (r: bool)
    ensures
        r == (owner_a == owner_b && effective_subaccount(sub_a) == effective_subaccount(sub_b)),
{
    Account { owner: owner_a, subaccount: sub_a } == Account { owner: owner_b, subaccount: sub_b }
}

} // verus!
