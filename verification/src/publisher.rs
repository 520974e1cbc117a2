//! The publisher record: the persisted shape of one publisher undergoing
//! migration, and the fixed record a lookup currently yields while real row
//! decoding is pending.
use vstd::prelude::*;

use crate::text::{spec_idec, i64_to_dec};

verus! {

/// One publisher undergoing migration. Timestamps are held as milliseconds
/// since the Unix epoch.
#[derive(Debug, Clone)]
pub struct Publisher {
    pub migration_name: String,
    pub external_id: String,
    pub awin_id: String,
    pub end_date: Option<i64>,
    pub migration_completed: bool,
    pub start_date: Option<i64>,
}

impl Publisher {
    /// The fixed record that a lookup by external identifier currently
    /// yields: both identifiers echo the key, nothing else is set.
    pub fn placeholder(external_id: i32) -> (p: Publisher)
        ensures
            p.migration_name@ == "Publisher"@,
            p.external_id@ == spec_idec(external_id as int),
            p.awin_id@ == spec_idec(external_id as int),
            p.end_date is None,
            p.migration_completed == false,
            p.start_date is None,
    {
        Publisher {
            migration_name: String::from_str("Publisher"),
            external_id: i64_to_dec(external_id as i64),
            awin_id: i64_to_dec(external_id as i64),
            end_date: None,
            migration_completed: false,
            start_date: None,
        }
    }
}

} // verus!
