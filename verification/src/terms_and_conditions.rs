//! Terms-and-conditions records: the terms payload returned by the remote
//! service, the validation of its parameters, and the request path for
//! querying an advertiser's terms status.
use vstd::prelude::*;

use crate::text::{spec_idec, i64_to_dec};

verus! {

/// The terms payload for one advertiser.
#[derive(Debug, Clone)]
pub struct Terms {
    pub term_status: String,
    pub term_params: TermParams,
}

/// The negotiated parameters inside a terms payload.
#[derive(Debug, Clone)]
pub struct TermParams {
    pub external_program_id: i32,
    pub external_program_name: String,
    pub awin_tech_fee: i32,
    pub tech_bundle: i32,
    pub tracking_fee_type: String,
    pub service_package: String,
    pub tracking_fee: i32,
    pub validation_period: i32,
}

/// The validation failures of a terms parameter record, in check order.
pub open spec fn spec_term_errors(t: TermParams) -> Seq<Seq<char>> {
    (if t.external_program_id <= 0 {
        seq!["External program ID must be greater than 0"@]
    } else {
        Seq::<Seq<char>>::empty()
    }) + (if t.external_program_name@.len() == 0 {
        seq!["External program name must not be empty"@]
    } else {
        Seq::<Seq<char>>::empty()
    }) + (if t.awin_tech_fee < 0 {
        seq!["AWIN tech fee must be non-negative"@]
    } else {
        Seq::<Seq<char>>::empty()
    })
}

impl TermParams {
    /// Collects every validation failure; empty exactly when the record is
    /// valid.
    pub fn validate(&self) -> (errors: Vec<String>)
        ensures
            errors.deep_view() == spec_term_errors(*self),
    {
        let mut errors: Vec<String> = Vec::new();
        if self.external_program_id <= 0 {
            errors.push(String::from_str("External program ID must be greater than 0"));
        }
        if self.external_program_name.as_str().is_empty() {
            errors.push(String::from_str("External program name must not be empty"));
        }
        if self.awin_tech_fee < 0 {
            errors.push(String::from_str("AWIN tech fee must be non-negative"));
        }
        proof {
            assert(errors.deep_view() =~~= spec_term_errors(*self));
        }
        errors
    }
}

/// The request path for reading an advertiser's terms status.
pub fn terms_status_endpoint(advertiser_id: i32) -> (s: String)
    ensures
        s@ == "terms/sas/advertiser/awin/"@ + spec_idec(advertiser_id as int),
{
    String::from_str("terms/sas/advertiser/awin/").concat(i64_to_dec(advertiser_id as i64).as_str())
}

} // verus!
