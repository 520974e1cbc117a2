//! Construction of the full request URLs for the two remote services; the
//! transport itself lives outside the library.
use vstd::prelude::*;

use crate::text::{spec_idec, i64_to_dec};

verus! {

/// The URL for a growth-migration request: base, `:port`, `/`, path.
pub fn growth_migration_url(base: &str, port: i32, endpoint_path: &str) -> (s: String)
    ensures
        s@ == base@ + ":"@ + spec_idec(port as int) + "/"@ + endpoint_path@,
{
    let mut s = String::from_str(base);
    s.append(":");
    s.append(i64_to_dec(port as i64).as_str());
    s.append("/");
    s.append(endpoint_path);
    s
}

/// The URL for a data-import request: base, `/`, path.
pub fn sas_data_import_url(base: &str, endpoint_path: &str) -> (s: String)
    ensures
        s@ == base@ + "/"@ + endpoint_path@,
{
    let mut s = String::from_str(base);
    s.append("/");
    s.append(endpoint_path);
    s
}

} // verus!
