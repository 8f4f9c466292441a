use tpt_ignis::units::{MegaAmps, Meters, Seconds, Tesla};

#[test]
fn units_are_self_documenting_via_display() {
    assert_eq!(Tesla(5.3).to_string(), "5.3T");
    assert_eq!(MegaAmps(15.0).to_string(), "15MA");
}

#[test]
fn unit_arithmetic_stays_in_unit() {
    let t = Tesla(2.0) + Tesla(1.5);
    assert_eq!(t, Tesla(3.5));
    assert_eq!((Seconds(4.0) - Seconds(1.0)) * 2.0, Seconds(6.0));
    assert_eq!(Meters(3.0) / 2.0, Meters(1.5));
    assert_eq!(Meters::from(2.5).value(), 2.5);
    assert_eq!(Tesla::new(1.0), Tesla(1.0));
    assert_eq!(Tesla(7u32).to_string(), "7T");
}
