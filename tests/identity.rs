use policy_utils::{CertificateTime, FileRights, Identity, PolicyError, ValidityPeriod};

const CERT: &str = "-----BEGIN CERTIFICATE-----\nMIIB\n-----END CERTIFICATE-----";

fn time(year: u16, month: u8, day: u8, hour: u8, minute: u8, second: u8) -> CertificateTime {
    CertificateTime { year, month, day, hour, minute, second }
}

fn period() -> ValidityPeriod {
    ValidityPeriod { not_before: time(2020, 1, 1, 0, 0, 0), not_after: time(2030, 12, 31, 23, 59, 59) }
}

#[test]
fn trailer_is_required() {
    let good = Identity::new(CERT.to_string(), 1u32, vec![]);
    assert_eq!(good.assert_valid(), Ok(()));
    let missing = Identity::new("-----BEGIN CERTIFICATE-----\nMIIB\n".to_string(), 1u32, vec![]);
    assert_eq!(missing.assert_valid(), Err(PolicyError::FormatError));
    let trailing = Identity::new(format!("{}\n", CERT), 1u32, vec![]);
    assert_eq!(trailing.assert_valid(), Err(PolicyError::FormatError));
    let misspelt = Identity::new("-----END CERTIFICATE----".to_string(), 1u32, vec![]);
    assert_eq!(misspelt.assert_valid(), Err(PolicyError::FormatError));
    let empty = Identity::new(String::new(), 1u32, vec![]);
    assert_eq!(empty.assert_valid(), Err(PolicyError::FormatError));
}

#[test]
fn validity_period_is_checked() {
    let id = Identity::new(CERT.to_string(), 1u32, vec![]);
    assert_eq!(id.assert_valid_at(&period(), &time(2024, 6, 1, 12, 0, 0)), Ok(()));
    assert_eq!(id.assert_valid_at(&period(), &time(2019, 12, 31, 23, 59, 59)), Err(PolicyError::FormatError));
    assert_eq!(id.assert_valid_at(&period(), &time(2031, 1, 1, 0, 0, 0)), Err(PolicyError::FormatError));
}

#[test]
fn validity_bounds_are_included() {
    let id = Identity::new(CERT.to_string(), 1u32, vec![]);
    assert_eq!(id.assert_valid_at(&period(), &time(2020, 1, 1, 0, 0, 0)), Ok(()));
    assert_eq!(id.assert_valid_at(&period(), &time(2030, 12, 31, 23, 59, 59)), Ok(()));
    assert_eq!(id.assert_valid_at(&period(), &time(2030, 12, 31, 23, 59, 60)), Err(PolicyError::FormatError));
}

#[test]
fn structure_is_checked_before_time() {
    let bad = Identity::new("not a certificate".to_string(), 1u32, vec![]);
    assert_eq!(bad.assert_valid_at(&period(), &time(2024, 6, 1, 12, 0, 0)), Err(PolicyError::FormatError));
}

#[test]
fn time_order_is_field_by_field() {
    assert!(time(2020, 1, 1, 0, 0, 0).is_before(&time(2020, 1, 1, 0, 0, 1)));
    assert!(time(2019, 12, 31, 23, 59, 59).is_before(&time(2020, 1, 1, 0, 0, 0)));
    assert!(!time(2020, 2, 1, 0, 0, 0).is_before(&time(2020, 1, 31, 0, 0, 0)));
    assert!(!time(2020, 1, 1, 0, 0, 0).is_before(&time(2020, 1, 1, 0, 0, 0)));
}

#[test]
fn identity_accessors() {
    let id = Identity::new(42u64, 9u32, vec![FileRights::new("f".to_string(), 2)]);
    assert_eq!(*id.certificate(), 42u64);
    assert_eq!(*id.id(), 9);
    assert_eq!(id.file_rights().len(), 1);
    assert_eq!(id.file_rights_map().rights_of("f").bits(), 2);
}
