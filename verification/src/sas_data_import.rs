//! The data-import surface: the health payload the service reports, and the
//! request URLs for its health check and merchant extraction.
use vstd::prelude::*;

use crate::text::{spec_idec, i64_to_dec, str_eq};

verus! {

/// The health payload of the data-import service.
#[derive(Debug, Clone)]
pub struct SasDataImport {
    pub status: String,
}

impl SasDataImport {
    /// True exactly when the service reports itself up.
    pub fn is_up(&self) -> (r: bool)
        ensures
            r == (self.status@ == "UP"@),
    {
        str_eq(self.status.as_str(), "UP")
    }
}

/// The URL of the data-import health check.
pub fn health_check_url(base: &str) -> (s: String)
    ensures
        s@ == base@ + "/actuator/health"@,
{
    let mut s = String::from_str(base);
    s.append("/actuator/health");
    s
}

/// The URL for extracting one merchant's data.
pub fn merchant_url(base: &str, port: i32, external_id: i32) -> (s: String)
    ensures
        s@ == base@ + ":"@ + spec_idec(port as int) + "/merchant/"@ + spec_idec(
            external_id as int,
        ),
{
    let mut s = String::from_str(base);
    s.append(":");
    s.append(i64_to_dec(port as i64).as_str());
    s.append("/merchant/");
    s.append(i64_to_dec(external_id as i64).as_str());
    s
}

} // verus!
