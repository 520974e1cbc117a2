use tiger_claw::advertiser::{
    advertiser_from_attributes, advertiser_lookup, Advertiser, AdvertiserAttributes,
};
use tiger_claw::orchestration_status::{MigrationStatus, StepDescriptor};
use tiger_claw::publisher::Publisher;

fn empty_attrs() -> AdvertiserAttributes {
    AdvertiserAttributes {
        migration_name: None,
        awin_id: None,
        external_id: None,
        end_date: None,
        migration_completed: None,
        migration_status: None,
        start_date: None,
        terms_awin_user_id: None,
        terms_status: None,
        terms_timestamp: None,
    }
}

#[test]
fn missing_attributes_fall_back_to_documented_defaults() {
    let a = advertiser_from_attributes(424242, empty_attrs());
    assert_eq!(a.migration_name, "sas");
    assert_eq!(a.awin_id, "424242");
    assert_eq!(a.external_id, "424242");
    assert_eq!(a.end_date, None);
    assert!(!a.migration_completed);
    assert_eq!(a.migration_status_string, "Pending");
    assert_eq!(a.migration_status, MigrationStatus::InitRun(StepDescriptor::Init));
    assert_eq!(a.start_date, None);
    assert_eq!(a.terms_awin_user_id, "424242");
    assert_eq!(a.terms_status, "Pending");
    assert_eq!(a.terms_timestamp, None);
}

#[test]
fn present_attributes_are_kept_and_status_decodes_with_init_context() {
    let mut attrs = empty_attrs();
    attrs.migration_name = Some("sas".to_string());
    attrs.awin_id = Some("777".to_string());
    attrs.external_id = Some("424242".to_string());
    attrs.migration_completed = Some(true);
    // A persisted SF_DONE token is reconstructed with the defaulted Init
    // phase context: the documented decode-time defaulting.
    attrs.migration_status = Some("SF_DONE".to_string());
    attrs.terms_status = Some("accepted".to_string());
    let a = advertiser_from_attributes(424242, attrs);
    assert_eq!(a.awin_id, "777");
    assert_eq!(a.external_id, "424242");
    assert!(a.migration_completed);
    assert_eq!(a.migration_status_string, "SF_DONE");
    assert_eq!(a.migration_status, MigrationStatus::SfDone(StepDescriptor::Init));
    assert_eq!(a.terms_status, "accepted");
}

#[test]
fn date_attributes_decode_to_epoch_milliseconds() {
    let mut attrs = empty_attrs();
    attrs.start_date = Some("2024-01-01T00:00:00Z".to_string());
    attrs.end_date = Some("1970-01-01T00:00:01+00:00".to_string());
    attrs.terms_timestamp = Some("not a date".to_string());
    let a = advertiser_from_attributes(1, attrs);
    assert_eq!(a.start_date, Some(1_704_067_200_000));
    assert_eq!(a.end_date, Some(1_000));
    assert_eq!(a.terms_timestamp, None);
}

#[test]
fn date_offsets_shift_the_instant() {
    let mut attrs = empty_attrs();
    attrs.start_date = Some("2024-01-01T00:00:00+01:00".to_string());
    let a = advertiser_from_attributes(1, attrs);
    assert_eq!(a.start_date, Some(1_704_067_200_000 - 3_600_000));
}

fn valid_advertiser() -> Advertiser {
    advertiser_from_attributes(424242, empty_attrs())
}

#[test]
fn advertiser_validation_passes_and_fails_exactly() {
    assert!(valid_advertiser().validate().is_ok());

    let mut bad_name = valid_advertiser();
    bad_name.migration_name = "awin".to_string();
    assert_eq!(bad_name.validate().unwrap_err(), "Migration name must be sas");

    let mut bad_awin = valid_advertiser();
    bad_awin.awin_id = String::new();
    assert_eq!(bad_awin.validate().unwrap_err(), "Awin ID is required");

    let mut bad_ext = valid_advertiser();
    bad_ext.external_id = String::new();
    assert_eq!(bad_ext.validate().unwrap_err(), "External ID is required");

    let mut all_bad = valid_advertiser();
    all_bad.migration_name = "x".to_string();
    all_bad.awin_id = String::new();
    all_bad.external_id = String::new();
    assert_eq!(
        all_bad.validate().unwrap_err(),
        "Migration name must be sas, Awin ID is required, External ID is required"
    );

    let mut two_bad = valid_advertiser();
    two_bad.awin_id = String::new();
    two_bad.external_id = String::new();
    assert_eq!(
        two_bad.validate().unwrap_err(),
        "Awin ID is required, External ID is required"
    );
}

#[test]
fn lookup_with_no_rows_is_the_distinct_not_found_outcome() {
    let r = advertiser_lookup(424242, None);
    assert_eq!(r.unwrap_err(), "No advertiser found for id: 424242");
}

#[test]
fn lookup_with_a_row_decodes_it() {
    let mut attrs = empty_attrs();
    attrs.awin_id = Some("777".to_string());
    attrs.migration_status = Some("ADV_RUN".to_string());
    let a = advertiser_lookup(98765, Some(attrs)).unwrap();
    assert_eq!(a.awin_id, "777");
    assert_eq!(a.external_id, "98765");
    assert_eq!(a.migration_status, MigrationStatus::AdvRun(StepDescriptor::Init));
}

#[test]
fn publisher_placeholder_echoes_the_key() {
    let p = Publisher::placeholder(515151);
    assert_eq!(p.migration_name, "Publisher");
    assert_eq!(p.external_id, "515151");
    assert_eq!(p.awin_id, "515151");
    assert_eq!(p.end_date, None);
    assert!(!p.migration_completed);
    assert_eq!(p.start_date, None);
}
