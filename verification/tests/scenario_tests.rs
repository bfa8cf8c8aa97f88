use tiltsense::orientation::{Orientation, OrientationManager};

/// Rotating the device from flat to upright must report exactly one change,
/// from face-up to portrait, with no spurious landscape event while the
/// transient samples monotonically trade Z for X.
#[test]
fn rotation_from_flat_to_upright_reports_one_event() {
    let mut m = OrientationManager::new();

    // Settle flat: exactly one event, the change to face-up.
    let mut events: Vec<Orientation> = Vec::new();
    for _ in 0..300 {
        if let Some(o) = m.process_sample(0, 0, 1000) {
            events.push(o);
        }
    }
    assert_eq!(events, vec![Orientation::FaceUp]);

    // Rotate: x rises monotonically from 0 to 1000 mg while z falls to 0,
    // then the device holds upright until the filter settles.
    let mut rotation: Vec<(i32, i32, i32)> = Vec::new();
    for k in 1..=20 {
        rotation.push((k * 50, 0, 1000 - k * 50));
    }
    for _ in 0..300 {
        rotation.push((1000, 0, 0));
    }

    events.clear();
    for (x, y, z) in rotation {
        if let Some(o) = m.process_sample(x, y, z) {
            events.push(o);
        }
    }
    assert_eq!(events, vec![Orientation::Portrait]);
    assert_eq!(m.get_orientation(), Orientation::Portrait);
}
