use tezedge::policy::{Action, Threshold};

#[test]
fn evaluate_inside_band_is_noop() {
    let t = Threshold::new(3, 10).unwrap();
    assert_eq!(t.evaluate(3), Action::NoOp);
    assert_eq!(t.evaluate(7), Action::NoOp);
    assert_eq!(t.evaluate(10), Action::NoOp);
}

#[test]
fn evaluate_under_low_acquires_shortfall() {
    let t = Threshold::new(3, 10).unwrap();
    assert_eq!(t.evaluate(0), Action::AcquirePeers(3));
    assert_eq!(t.evaluate(2), Action::AcquirePeers(1));
}

#[test]
fn evaluate_over_high_sheds_excess() {
    let t = Threshold::new(3, 10).unwrap();
    assert_eq!(t.evaluate(11), Action::ShedPeers(1));
    assert_eq!(t.evaluate(15), Action::ShedPeers(5));
}

#[test]
fn evaluate_degenerate_band() {
    let t = Threshold::new(5, 5).unwrap();
    assert_eq!(t.evaluate(5), Action::NoOp);
    assert_eq!(t.evaluate(4), Action::AcquirePeers(1));
    assert_eq!(t.evaluate(6), Action::ShedPeers(1));
}

#[test]
fn construction_rejects_inverted_band() {
    let r = Threshold::new(10, 3);
    let e = r.unwrap_err();
    assert_eq!(e.low, 10);
    assert_eq!(e.high, 3);
}

#[test]
fn construction_accepts_valid_band() {
    assert!(Threshold::new(0, 0).is_ok());
    assert!(Threshold::new(3, 10).is_ok());
}

#[test]
fn mid_range_is_band_midpoint() {
    let t = Threshold::new(3, 10).unwrap();
    assert_eq!(t.mid_range(), 6);
    let u = Threshold::new(4, 4).unwrap();
    assert_eq!(u.mid_range(), 4);
}

#[test]
fn threshold_accessors_report_band() {
    let t = Threshold::new(2, 9).unwrap();
    assert_eq!(t.low(), 2);
    assert_eq!(t.high(), 9);
}
