use connlib::ServerLastStatus;

#[test]
fn status_equals_bool() {
    assert!(ServerLastStatus::Optional == true);
    assert!(ServerLastStatus::Optional != false);
    assert!(ServerLastStatus::Outage == false);
    assert!(ServerLastStatus::Outage != true);
    assert!(ServerLastStatus::Unknown == false);
    assert!(ServerLastStatus::Unknown != true);
}

#[test]
fn status_from_bool() {
    assert!(matches!(ServerLastStatus::from(true), ServerLastStatus::Optional));
    assert!(matches!(ServerLastStatus::from(false), ServerLastStatus::Outage));
}

#[test]
fn status_is_healthy() {
    assert!(ServerLastStatus::Optional.is_healthy());
    assert!(!ServerLastStatus::Outage.is_healthy());
    assert!(!ServerLastStatus::Unknown.is_healthy());
}
