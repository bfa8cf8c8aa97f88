use tiltsense::orientation::Orientation;
use tiltsense::pattern::{pattern_for, Pattern};

#[test]
fn portrait_orientations_show_vertical_bars() {
    assert_eq!(pattern_for(Orientation::Portrait), Pattern::VerticalBars);
    assert_eq!(
        pattern_for(Orientation::PortraitUpsideDown),
        Pattern::VerticalBars
    );
}

#[test]
fn landscape_orientations_show_horizontal_bars() {
    assert_eq!(pattern_for(Orientation::LandscapeLeft), Pattern::HorizontalBars);
    assert_eq!(
        pattern_for(Orientation::LandscapeRight),
        Pattern::HorizontalBars
    );
}

#[test]
fn face_orientations_show_diagonal_cross() {
    assert_eq!(pattern_for(Orientation::FaceUp), Pattern::DiagonalCross);
    assert_eq!(pattern_for(Orientation::FaceDown), Pattern::DiagonalCross);
}
