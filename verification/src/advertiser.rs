//! The advertiser record: the persisted shape of one advertiser undergoing
//! migration, its validation, and the defensive decoding of a raw record row
//! into that shape — every attribute optional at the wire level, each falling
//! back to its documented default rather than failing the lookup.
use vstd::prelude::*;

use crate::orchestration_status::{
    spec_decode_status, MigrationStatus, StepDescriptor,
};
use crate::text::{spec_idec, i64_to_dec, str_eq};

verus! {

/// One advertiser undergoing migration. Timestamps are held as milliseconds
/// since the Unix epoch.
#[derive(Debug, Clone)]
pub struct Advertiser {
    pub migration_name: String,
    pub awin_id: String,
    pub external_id: String,
    pub end_date: Option<i64>,
    pub migration_completed: bool,
    pub migration_status_string: String,
    pub migration_status: MigrationStatus,
    pub start_date: Option<i64>,
    pub terms_awin_user_id: String,
    pub terms_status: String,
    pub terms_timestamp: Option<i64>,
}

/// The validation failures of an advertiser record, in check order.
pub open spec fn spec_advertiser_errors(a: Advertiser) -> Seq<Seq<char>> {
    (if a.migration_name@ != "sas"@ {
        seq!["Migration name must be sas"@]
    } else {
        Seq::<Seq<char>>::empty()
    }) + (if a.awin_id@.len() == 0 {
        seq!["Awin ID is required"@]
    } else {
        Seq::<Seq<char>>::empty()
    }) + (if a.external_id@.len() == 0 {
        seq!["External ID is required"@]
    } else {
        Seq::<Seq<char>>::empty()
    })
}

/// The parts joined with a separator between consecutive elements.
pub open spec fn spec_join(parts: Seq<Seq<char>>, sep: Seq<char>) -> Seq<char>
    decreases parts.len(),
{
    if parts.len() == 0 {
        Seq::<char>::empty()
    } else if parts.len() == 1 {
        parts[0]
    } else {
        parts[0] + sep + spec_join(parts.drop_first(), sep)
    }
}

impl Advertiser {
    /// Checks the record's invariants: the single supported migration name,
    /// and both identifiers present. `Ok` exactly when all hold; otherwise
    /// the failures joined with `", "`.
    pub fn validate(&self) -> (r: Result<(), String>)
        ensures
            r is Ok <==> (self.migration_name@ == "sas"@ && self.awin_id@.len() > 0
                && self.external_id@.len() > 0),
            r matches Err(m) ==> m@ == spec_join(spec_advertiser_errors(*self), ", "@),
    {
        let name_ok = str_eq(self.migration_name.as_str(), "sas");
        let awin_ok = !self.awin_id.as_str().is_empty();
        let ext_ok = !self.external_id.as_str().is_empty();
        if name_ok && awin_ok && ext_ok {
            return Ok(());
        }
        let mut m = String::new();
        let mut first = true;
        if !name_ok {
            m.append("Migration name must be sas");
            first = false;
        }
        if !awin_ok {
            if !first {
                m.append(", ");
            }
            m.append("Awin ID is required");
            first = false;
        }
        if !ext_ok {
            if !first {
                m.append(", ");
            }
            m.append("External ID is required");
        }
        proof {
            let errs = spec_advertiser_errors(*self);
            let sep = ", "@;
            let n = "Migration name must be sas"@;
            let aw = "Awin ID is required"@;
            let ex = "External ID is required"@;
            if !name_ok && !awin_ok && !ext_ok {
                assert(errs =~~= seq![n, aw, ex]);
                assert(errs.drop_first() =~~= seq![aw, ex]);
                assert(errs.drop_first().drop_first() =~~= seq![ex]);
                assert(spec_join(errs.drop_first().drop_first(), sep) == ex);
                assert(spec_join(errs.drop_first(), sep) == aw + sep + ex);
                assert(spec_join(errs, sep) == n + sep + (aw + sep + ex));
            } else if !name_ok && !awin_ok {
                assert(errs =~~= seq![n, aw]);
                assert(errs.drop_first() =~~= seq![aw]);
                assert(spec_join(errs.drop_first(), sep) == aw);
                assert(spec_join(errs, sep) == n + sep + aw);
            } else if !name_ok && !ext_ok {
                assert(errs =~~= seq![n, ex]);
                assert(errs.drop_first() =~~= seq![ex]);
                assert(spec_join(errs.drop_first(), sep) == ex);
                assert(spec_join(errs, sep) == n + sep + ex);
            } else if !awin_ok && !ext_ok {
                assert(errs =~~= seq![aw, ex]);
                assert(errs.drop_first() =~~= seq![ex]);
                assert(spec_join(errs.drop_first(), sep) == ex);
                assert(spec_join(errs, sep) == aw + sep + ex);
            } else if !name_ok {
                assert(errs =~~= seq![n]);
                assert(spec_join(errs, sep) == n);
            } else if !awin_ok {
                assert(errs =~~= seq![aw]);
                assert(spec_join(errs, sep) == aw);
            } else {
                assert(errs =~~= seq![ex]);
                assert(spec_join(errs, sep) == ex);
            }
            assert(m@ =~= spec_join(errs, sep));
        }
        Err(m)
    }
}

/// The raw attributes of one scanned record row, each optional at the wire
/// level: a string value where the row held one, a boolean for the
/// completion flag.
#[derive(Debug, Clone)]
pub struct AdvertiserAttributes {
    pub migration_name: Option<String>,
    pub awin_id: Option<String>,
    pub external_id: Option<String>,
    pub end_date: Option<String>,
    pub migration_completed: Option<bool>,
    pub migration_status: Option<String>,
    pub start_date: Option<String>,
    pub terms_awin_user_id: Option<String>,
    pub terms_status: Option<String>,
    pub terms_timestamp: Option<String>,
}

/// The instant an RFC 3339 date-time string denotes, in milliseconds since
/// the Unix epoch; `None` when the string is not a valid RFC 3339 date-time.
pub uninterp spec fn rfc3339_epoch_of(s: Seq<char>) -> Option<i64>;

/// Relies on chrono's `DateTime::parse_from_rfc3339` and `timestamp_millis`:
/// together a pure function of the input text alone, here named
/// `rfc3339_epoch_of`.
#[verifier::external_body]
fn rfc3339_to_epoch_millis(s: &str) -> (r: Option<i64>)
    ensures
        r == rfc3339_epoch_of(s@),
{
    chrono::DateTime::parse_from_rfc3339(s).ok().map(|dt| dt.timestamp_millis())
}

/// The timestamp an optional date attribute decodes to.
pub open spec fn spec_date_of(attr: Option<String>) -> Option<i64> {
    match attr {
        Some(s) => rfc3339_epoch_of(s@),
        None => None,
    }
}

/// Decodes one date attribute; absent or unparsable values yield `None`.
fn date_of(attr: Option<String>) -> (r: Option<i64>)
    ensures
        r == spec_date_of(attr),
{
    match attr {
        Some(s) => rfc3339_to_epoch_millis(s.as_str()),
        None => None,
    }
}

/// The defensive decode of one scanned row: `a` is the advertiser that the
/// raw attributes `attrs` decode to for the lookup key `external_id`. Every
/// attribute falls back to its documented default: the supported migration
/// name, the identifier itself for the identifier fields, `"Pending"` for
/// the status strings, `false` for the completion flag, and no timestamp for
/// the dates; a status string outside the vocabulary decodes to the running
/// initialization phase.
pub open spec fn spec_decoded_advertiser(
    external_id: int,
    attrs: AdvertiserAttributes,
    a: Advertiser,
) -> bool {
    &&& a.migration_name@ == (match attrs.migration_name {
        Some(s) => s@,
        None => "sas"@,
    })
    &&& a.awin_id@ == (match attrs.awin_id {
        Some(s) => s@,
        None => spec_idec(external_id),
    })
    &&& a.external_id@ == (match attrs.external_id {
        Some(s) => s@,
        None => spec_idec(external_id),
    })
    &&& a.end_date == spec_date_of(attrs.end_date)
    &&& a.migration_completed == (match attrs.migration_completed {
        Some(b) => b,
        None => false,
    })
    &&& a.migration_status_string@ == (match attrs.migration_status {
        Some(s) => s@,
        None => "Pending"@,
    })
    &&& a.migration_status == (match spec_decode_status(
        match attrs.migration_status {
            Some(s) => s@,
            None => "Pending"@,
        },
        StepDescriptor::Init,
    ) {
        Some(m) => m,
        None => MigrationStatus::InitRun(StepDescriptor::Init),
    })
    &&& a.start_date == spec_date_of(attrs.start_date)
    &&& a.terms_awin_user_id@ == (match attrs.terms_awin_user_id {
        Some(s) => s@,
        None => spec_idec(external_id),
    })
    &&& a.terms_status@ == (match attrs.terms_status {
        Some(s) => s@,
        None => "Pending"@,
    })
    &&& a.terms_timestamp == spec_date_of(attrs.terms_timestamp)
}

/// Assembles an advertiser from the raw attributes of a scanned row, keyed
/// by the external identifier the lookup used, defaulting every missing
/// attribute as `spec_decoded_advertiser` states.
pub fn advertiser_from_attributes(external_id: i32, attrs: AdvertiserAttributes) -> (a: Advertiser)
    ensures
        spec_decoded_advertiser(external_id as int, attrs, a),
{
    let migration_name = match attrs.migration_name {
        Some(s) => s,
        None => String::from_str("sas"),
    };
    let awin_id = match attrs.awin_id {
        Some(s) => s,
        None => i64_to_dec(external_id as i64),
    };
    let external_id_field = match attrs.external_id {
        Some(s) => s,
        None => i64_to_dec(external_id as i64),
    };
    let end_date = date_of(attrs.end_date);
    let migration_completed = match attrs.migration_completed {
        Some(b) => b,
        None => false,
    };
    let migration_status_string = match attrs.migration_status {
        Some(s) => s,
        None => String::from_str("Pending"),
    };
    let migration_status = match MigrationStatus::from_string(
        migration_status_string.as_str(),
        StepDescriptor::Init,
    ) {
        Some(m) => m,
        None => MigrationStatus::InitRun(StepDescriptor::Init),
    };
    let start_date = date_of(attrs.start_date);
    let terms_awin_user_id = match attrs.terms_awin_user_id {
        Some(s) => s,
        None => i64_to_dec(external_id as i64),
    };
    let terms_status = match attrs.terms_status {
        Some(s) => s,
        None => String::from_str("Pending"),
    };
    let terms_timestamp = date_of(attrs.terms_timestamp);
    Advertiser {
        migration_name,
        awin_id,
        external_id: external_id_field,
        end_date,
        migration_completed,
        migration_status_string,
        migration_status,
        start_date,
        terms_awin_user_id,
        terms_status,
        terms_timestamp,
    }
}

/// Settles a lookup from what the scan returned: zero matching rows is the
/// distinct not-found outcome, with a message naming the identifier; a
/// present first row decodes defensively into the record.
pub fn advertiser_lookup(external_id: i32, first_row: Option<AdvertiserAttributes>) -> (r: Result<
    Advertiser,
    String,
>)
    ensures
        r is Ok <==> first_row is Some,
        r matches Err(m) ==> m@ == "No advertiser found for id: "@ + spec_idec(external_id as int),
        first_row matches Some(attrs) ==> (r matches Ok(a) && spec_decoded_advertiser(
            external_id as int,
            attrs,
            a,
        )),
{
    match first_row {
        Some(attrs) => Ok(advertiser_from_attributes(external_id, attrs)),
        None => {
            let mut m = String::from_str("No advertiser found for id: ");
            m.append(i64_to_dec(external_id as i64).as_str());
            Err(m)
        },
    }
}

} // verus!
