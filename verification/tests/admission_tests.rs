use smpp::admission::Admission;

#[test]
fn admission_rejects_the_connection_over_the_cap() {
    let mut admission = Admission::new(2);
    assert!(admission.try_admit());
    assert!(admission.try_admit());
    // The third simultaneous connection is refused on the spot.
    assert!(!admission.try_admit());
}

#[test]
fn a_released_place_can_be_taken_again() {
    let mut admission = Admission::new(2);
    assert!(admission.try_admit());
    assert!(admission.try_admit());
    assert!(!admission.try_admit());
    admission.release();
    assert!(admission.try_admit());
    assert!(!admission.try_admit());
}

#[test]
fn a_cap_of_zero_admits_nobody() {
    let mut admission = Admission::new(0);
    assert!(!admission.try_admit());
}
