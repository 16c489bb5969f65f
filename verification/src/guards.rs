//! Access rules for callers.
use vstd::prelude::*;

use candid::Principal;

use crate::outside::{anonymous_principal, principal_from_bytes};

verus! {

/// Refuses the anonymous principal.
pub fn caller_is_not_anonymous(caller: &Principal) -> (r: Result<(), String>)
    ensures
        r is Err <==> *caller == principal_from_bytes(seq![4u8]),
        r matches Err(msg) ==> msg@ == "anonymous callers are not allowed"@,
{
    let anonymous = anonymous_principal();
    if caller.eq(&anonymous) {
        Err(String::from_str("anonymous callers are not allowed"))
    } else {
        Ok(())
    }
}

/// Refuses a caller that is not a controller of the canister.
pub fn caller_is_controller(is_controller: bool) -> (r: Result<(), String>)
    ensures
        r is Ok <==> is_controller,
        r matches Err(msg) ==> msg@ == "caller is not a controller"@,
{
    if is_controller {
        Ok(())
    } else {
        Err(String::from_str("caller is not a controller"))
    }
}

} // verus!
