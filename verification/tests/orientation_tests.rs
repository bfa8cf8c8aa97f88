use tiltsense::orientation::{ConfigError, Orientation, OrientationManager};

/// Feeds `sample` until the first reported orientation change and returns it,
/// panicking if no change is ever reported within `limit` calls.
fn feed_until_event(
    m: &mut OrientationManager,
    sample: (i32, i32, i32),
    limit: usize,
) -> Orientation {
    for _ in 0..limit {
        if let Some(o) = m.process_sample(sample.0, sample.1, sample.2) {
            return o;
        }
    }
    panic!("no orientation change reported");
}

#[test]
fn starts_in_portrait() {
    let m = OrientationManager::new();
    assert_eq!(m.get_orientation(), Orientation::Portrait);
}

#[test]
fn first_sample_filters_with_default_alpha() {
    // alpha = 0.05: one step from zero toward 1000 mg lands at 0.05 g.
    let mut m = OrientationManager::new();
    let r = m.process_sample(1000, 0, 0);
    assert_eq!(r, None);
    assert_eq!(m.filtered_micro_g(), (50_000, 0, 0));
}

#[test]
fn steady_state_sample_stays_silent() {
    let mut m = OrientationManager::new();
    let o = feed_until_event(&mut m, (0, 0, 1000), 500);
    assert_eq!(o, Orientation::FaceUp);
    // The same steady sample must report nothing on every later call.
    for _ in 0..300 {
        assert_eq!(m.process_sample(0, 0, 1000), None);
    }
    assert_eq!(m.get_orientation(), Orientation::FaceUp);
}

#[test]
fn filter_converges_monotonically_to_constant_input() {
    let mut m = OrientationManager::new();
    let mut prev: i64 = 0;
    for i in 0..150 {
        let _ = m.process_sample(1000, 0, 0);
        let (fx, fy, fz) = m.filtered_micro_g();
        assert!(fx >= prev, "filtered_x fell at step {}", i);
        assert!(fx <= 1_000_000);
        assert_eq!((fy, fz), (0, 0));
        prev = fx;
    }
    // Within 150 samples at alpha = 0.05 the filter is within 1e-3 g of 1 g.
    let (fx, _, _) = m.filtered_micro_g();
    assert!((fx - 1_000_000).abs() < 1000, "filtered_x = {}", fx);
}

#[test]
fn x_wins_tie_break_over_y() {
    // Both X and Y converge to 0.9 g; the classification must be Portrait
    // (the initial orientation), and never a landscape event.
    let mut m = OrientationManager::new();
    for _ in 0..500 {
        let r = m.process_sample(900, 900, 0);
        assert_eq!(r, None);
    }
    assert_eq!(m.get_orientation(), Orientation::Portrait);
    let (fx, fy, _) = m.filtered_micro_g();
    assert!(fx > 800_000 && fy > 800_000, "both axes should have converged");
}

#[test]
fn threshold_is_strict_at_exactly_eight_tenths() {
    // alpha = 1 makes the filter copy the sample: 800 mg lands the axis at
    // exactly 0.8 g, which must not trigger.
    let mut m = OrientationManager::new();
    m.set_filter_coefficient(1000).unwrap();
    assert_eq!(m.process_sample(0, 0, 800), None);
    assert_eq!(m.get_orientation(), Orientation::Portrait);
    assert_eq!(m.filtered_micro_g(), (0, 0, 800_000));
    // One more milligravity trips it.
    assert_eq!(m.process_sample(0, 0, 801), Some(Orientation::FaceUp));
}

#[test]
fn threshold_trips_just_above_eight_tenths() {
    // alpha = 0.1 and one 8001 mg sample from zero land the axis at exactly
    // 0.8001 g, which must trigger.
    let mut m = OrientationManager::new();
    m.set_filter_coefficient(100).unwrap();
    let r = m.process_sample(0, 0, 8001);
    assert_eq!(m.filtered_micro_g(), (0, 0, 800_100));
    assert_eq!(r, Some(Orientation::FaceUp));
    // The same construction at exactly 0.8 g stays silent.
    let mut m2 = OrientationManager::new();
    m2.set_filter_coefficient(100).unwrap();
    assert_eq!(m2.process_sample(0, 0, 8000), None);
    assert_eq!(m2.filtered_micro_g(), (0, 0, 800_000));
}

#[test]
fn reports_only_on_transition() {
    let mut m = OrientationManager::new();
    m.set_filter_coefficient(1000).unwrap();
    assert_eq!(m.process_sample(0, 0, 1000), Some(Orientation::FaceUp));
    assert_eq!(m.process_sample(0, 0, 1000), None);
    assert_eq!(m.process_sample(0, -1000, 0), Some(Orientation::LandscapeRight));
    assert_eq!(m.process_sample(0, -1000, 0), None);
    assert_eq!(m.process_sample(-1000, 0, 0), Some(Orientation::PortraitUpsideDown));
    assert_eq!(m.process_sample(0, 1000, 0), Some(Orientation::LandscapeLeft));
    assert_eq!(m.process_sample(0, 0, -1000), Some(Orientation::FaceDown));
    assert_eq!(m.process_sample(1000, 0, 0), Some(Orientation::Portrait));
    assert_eq!(m.process_sample(1000, 0, 0), None);
}

#[test]
fn indeterminate_sample_reports_nothing() {
    let mut m = OrientationManager::new();
    m.set_filter_coefficient(1000).unwrap();
    // No axis over 0.8 g: no decision, held orientation kept.
    assert_eq!(m.process_sample(500, 500, 500), None);
    assert_eq!(m.get_orientation(), Orientation::Portrait);
}

#[test]
fn coefficient_out_of_range_is_rejected() {
    let mut m = OrientationManager::new();
    assert_eq!(
        m.set_filter_coefficient(1001),
        Err(ConfigError::CoefficientOutOfRange)
    );
    // The held configuration is retained: the next step still smooths with
    // the default alpha = 0.05.
    assert_eq!(m.process_sample(1000, 0, 0), None);
    assert_eq!(m.filtered_micro_g(), (50_000, 0, 0));
}

#[test]
fn coefficient_boundaries_are_accepted() {
    let mut m = OrientationManager::new();
    assert_eq!(m.set_filter_coefficient(0), Ok(()));
    // alpha = 0 freezes the filter.
    let _ = m.process_sample(1000, 1000, 1000);
    assert_eq!(m.filtered_micro_g(), (0, 0, 0));
    assert_eq!(m.set_filter_coefficient(1000), Ok(()));
    let _ = m.process_sample(1000, 0, 0);
    assert_eq!(m.filtered_micro_g(), (1_000_000, 0, 0));
}

#[test]
fn negative_axes_classify_by_sign() {
    let mut m = OrientationManager::new();
    let o = feed_until_event(&mut m, (-1000, 0, 0), 500);
    assert_eq!(o, Orientation::PortraitUpsideDown);
}
