//! The migration-API surface: the request paths for locking a merchant down
//! and locking its fees during migration.
use vstd::prelude::*;

use crate::text::{spec_udec, u64_to_dec};

verus! {

/// The request path that enables lockdown for a merchant.
pub fn lockdown_endpoint(merchant_id: i32) -> (s: String)
    requires
        merchant_id > 0,
    ensures
        s@ == "sasMigrationApi/lockdown/"@ + spec_udec(merchant_id as nat),
{
    String::from_str("sasMigrationApi/lockdown/").concat(u64_to_dec(merchant_id as u64).as_str())
}

/// The request path that enables the fee lock for a merchant.
pub fn feelock_endpoint(merchant_id: i32) -> (s: String)
    requires
        merchant_id > 0,
    ensures
        s@ == "sasMigrationApi/feelock/"@ + spec_udec(merchant_id as nat),
{
    String::from_str("sasMigrationApi/feelock/").concat(u64_to_dec(merchant_id as u64).as_str())
}

} // verus!
