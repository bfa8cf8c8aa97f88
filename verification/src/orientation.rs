//! Orientation detection from low-pass-filtered accelerometer samples.
//!
//! The gravity direction is extracted from the noisy sample stream with the
//! fixed-point low-pass filter of `crate::filter`; the dominant filtered axis
//! then decides one of six orientations. A change is reported only on
//! transition: repeated identical classifications, and indeterminate samples
//! where no axis dominates, report nothing.

use vstd::prelude::*;

use crate::filter::{filter_step, step_axis, FILTER_LIMIT};

verus! {

/// The six mutually exclusive orientations of the device, named for the
/// predominant direction of the measured gravity vector.
#[derive(Clone, Copy, PartialEq, Eq, Structural, Debug)]
pub enum Orientation {
    Portrait,
    PortraitUpsideDown,
    LandscapeLeft,
    LandscapeRight,
    FaceUp,
    FaceDown,
}

/// Rejected configuration values.
#[derive(Clone, Copy, PartialEq, Eq, Structural, Debug)]
pub enum ConfigError {
    /// The filter coefficient lies outside `[0, 1]` (in thousandths,
    /// outside `[0, 1000]`).
    CoefficientOutOfRange,
}

/// Classification threshold: a filtered axis must exceed 0.8 g, in
/// microgravity, strictly, before it decides the orientation.
pub const ORIENTATION_THRESHOLD: i64 = 800_000;

/// Default filter coefficient, 0.05 in thousandths.
pub const DEFAULT_ALPHA_MILLI: u32 = 50;

/// The orientation the filtered gravity vector (in microgravity) points to,
/// or `None` when no axis strictly exceeds the threshold. Axis priority is
/// the fixed tie-break X, then Y, then Z: when several axes exceed the
/// threshold at once, X wins over Y, and Y wins over Z.
pub open spec fn classify(fx: int, fy: int, fz: int) -> Option<Orientation> {
    if fx > ORIENTATION_THRESHOLD || fx < -ORIENTATION_THRESHOLD {
        if fx > 0 {
            Some(Orientation::Portrait)
        } else {
            Some(Orientation::PortraitUpsideDown)
        }
    } else if fy > ORIENTATION_THRESHOLD || fy < -ORIENTATION_THRESHOLD {
        if fy > 0 {
            Some(Orientation::LandscapeLeft)
        } else {
            Some(Orientation::LandscapeRight)
        }
    } else if fz > ORIENTATION_THRESHOLD || fz < -ORIENTATION_THRESHOLD {
        if fz > 0 {
            Some(Orientation::FaceUp)
        } else {
            Some(Orientation::FaceDown)
        }
    } else {
        None
    }
}

/// Edge-triggered reporting: from the held orientation and the current
/// classification, the new held orientation and what is reported. Only a
/// transition reports; an identical or indeterminate classification is
/// silent.
pub open spec fn report(cur: Orientation, classified: Option<Orientation>) -> (
    Orientation,
    Option<Orientation>,
) {
    match classified {
        None => (cur, None),
        Some(o) => if o == cur {
            (cur, None)
        } else {
            (o, Some(o))
        },
    }
}

/// Tracks the filtered gravity vector and the orientation last reported.
pub struct OrientationManager {
    pub current_orientation: Orientation,
    /// Low-pass-filtered axis values in microgravity.
    pub filtered_x: i64,
    pub filtered_y: i64,
    pub filtered_z: i64,
    /// Filter coefficient in thousandths (`0` = frozen, `1000` = no
    /// smoothing).
    pub alpha_milli: u32,
}

impl OrientationManager {
    /// The filter state is bounded by the largest scaled sample and the
    /// coefficient stays in range; every constructor establishes this and
    /// every method preserves it.
    pub open spec fn wf(self) -> bool {
        &&& self.alpha_milli <= 1000
        &&& -FILTER_LIMIT <= self.filtered_x <= FILTER_LIMIT
        &&& -FILTER_LIMIT <= self.filtered_y <= FILTER_LIMIT
        &&& -FILTER_LIMIT <= self.filtered_z <= FILTER_LIMIT
    }

    /// Starts in portrait with a zeroed filter and the default coefficient.
    pub fn new() -> (m: Self)
        ensures
            m.wf(),
            m.current_orientation == Orientation::Portrait,
            m.filtered_x == 0 && m.filtered_y == 0 && m.filtered_z == 0,
            m.alpha_milli == DEFAULT_ALPHA_MILLI,
    {
        Self {
            current_orientation: Orientation::Portrait,
            filtered_x: 0,
            filtered_y: 0,
            filtered_z: 0,
            alpha_milli: DEFAULT_ALPHA_MILLI,
        }
    }

    /// Feeds one raw sample (axes in milligravity) through the filter and
    /// classifies the result. Returns the new orientation exactly when the
    /// classification differs from the held orientation.
    pub fn process_sample(&mut self, x: i32, y: i32, z: i32) -> (r: Option<Orientation>)
        requires
            old(self).wf(),
        ensures
            final(self).wf(),
            final(self).alpha_milli == old(self).alpha_milli,
            final(self).filtered_x == filter_step(
                old(self).filtered_x as int,
                x as int,
                old(self).alpha_milli as int,
            ),
            final(self).filtered_y == filter_step(
                old(self).filtered_y as int,
                y as int,
                old(self).alpha_milli as int,
            ),
            final(self).filtered_z == filter_step(
                old(self).filtered_z as int,
                z as int,
                old(self).alpha_milli as int,
            ),
            (final(self).current_orientation, r) == report(
                old(self).current_orientation,
                classify(
                    final(self).filtered_x as int,
                    final(self).filtered_y as int,
                    final(self).filtered_z as int,
                ),
            ),
    {
        self.filtered_x = step_axis(self.filtered_x, x, self.alpha_milli);
        self.filtered_y = step_axis(self.filtered_y, y, self.alpha_milli);
        self.filtered_z = step_axis(self.filtered_z, z, self.alpha_milli);

        let new_orientation = if self.filtered_x > ORIENTATION_THRESHOLD || self.filtered_x
            < -ORIENTATION_THRESHOLD {
            if self.filtered_x > 0 {
                Orientation::Portrait
            } else {
                Orientation::PortraitUpsideDown
            }
        } else if self.filtered_y > ORIENTATION_THRESHOLD || self.filtered_y
            < -ORIENTATION_THRESHOLD {
            if self.filtered_y > 0 {
                Orientation::LandscapeLeft
            } else {
                Orientation::LandscapeRight
            }
        } else if self.filtered_z > ORIENTATION_THRESHOLD || self.filtered_z
            < -ORIENTATION_THRESHOLD {
            if self.filtered_z > 0 {
                Orientation::FaceUp
            } else {
                Orientation::FaceDown
            }
        } else {
            return None;
        };

        if new_orientation != self.current_orientation {
            self.current_orientation = new_orientation;
            Some(new_orientation)
        } else {
            None
        }
    }

    /// Sets the filter coefficient, in thousandths of its `[0, 1]` range.
    /// A value over `1000` is rejected and the held configuration kept.
    /// Takes effect on the next sample; the filtered values are not reset.
    pub fn set_filter_coefficient(&mut self, alpha_milli: u32) -> (r: Result<(), ConfigError>)
        ensures
            alpha_milli <= 1000 ==> r == Ok::<(), ConfigError>(())
                && final(self).alpha_milli == alpha_milli,
            alpha_milli > 1000 ==> r == Err::<(), ConfigError>(ConfigError::CoefficientOutOfRange)
                && final(self).alpha_milli == old(self).alpha_milli,
            final(self).current_orientation == old(self).current_orientation,
            final(self).filtered_x == old(self).filtered_x,
            final(self).filtered_y == old(self).filtered_y,
            final(self).filtered_z == old(self).filtered_z,
            old(self).wf() ==> final(self).wf(),
    {
        if alpha_milli <= 1000 {
            self.alpha_milli = alpha_milli;
            Ok(())
        } else {
            Err(ConfigError::CoefficientOutOfRange)
        }
    }

    /// The orientation last held, without side effects.
    pub fn get_orientation(&self) -> (r: Orientation)
        ensures
            r == self.current_orientation,
    {
        self.current_orientation
    }

    /// The filtered gravity vector, each axis in microgravity.
    pub fn filtered_micro_g(&self) -> (r: (i64, i64, i64))
        ensures
            r == (self.filtered_x, self.filtered_y, self.filtered_z),
    {
        (self.filtered_x, self.filtered_y, self.filtered_z)
    }
}

/// Axis priority, the X half of the tie-break: whenever the X axis exceeds
/// the threshold the classification is decided by X alone, whatever the
/// other axes hold — a sample that drives X and Y over the threshold
/// together classifies as portrait, never landscape.
pub proof fn lemma_x_axis_priority(fx: int, fy: int, fz: int)
    requires
        fx > ORIENTATION_THRESHOLD || fx < -ORIENTATION_THRESHOLD,
    ensures
        classify(fx, fy, fz) == Some(
            if fx > 0 {
                Orientation::Portrait
            } else {
                Orientation::PortraitUpsideDown
            },
        ),
{
}

/// Axis priority, the Y half of the tie-break: when X is at or under the
/// threshold and Y exceeds it, Y decides, whatever Z holds.
pub proof fn lemma_y_axis_priority(fx: int, fy: int, fz: int)
    requires
        -ORIENTATION_THRESHOLD <= fx <= ORIENTATION_THRESHOLD,
        fy > ORIENTATION_THRESHOLD || fy < -ORIENTATION_THRESHOLD,
    ensures
        classify(fx, fy, fz) == Some(
            if fy > 0 {
                Orientation::LandscapeLeft
            } else {
                Orientation::LandscapeRight
            },
        ),
{
}

/// The threshold is strict: a filtered vector with every axis at or below
/// the threshold in magnitude — the boundary value 0.8 g itself included —
/// classifies as indeterminate and triggers nothing.
pub proof fn lemma_threshold_strict(fx: int, fy: int, fz: int)
    requires
        -ORIENTATION_THRESHOLD <= fx <= ORIENTATION_THRESHOLD,
        -ORIENTATION_THRESHOLD <= fy <= ORIENTATION_THRESHOLD,
        -ORIENTATION_THRESHOLD <= fz <= ORIENTATION_THRESHOLD,
    ensures
        classify(fx, fy, fz) is None,
{
}

/// Edge-triggered reporting: two consecutive evaluations under the same
/// classification never report twice. Whatever the first evaluation held and
/// reported, a second one with an unchanged classification reports nothing.
pub proof fn lemma_edge_triggered(cur: Orientation, classified: Option<Orientation>)
    ensures
        report(report(cur, classified).0, classified).1 is None,
{
}

/// A steady state is silent: once the filtered vector is a fixed point of
/// the filter for some sample and the held orientation matches its
/// classification (or the classification is indeterminate), feeding that
/// same sample again leaves the whole state unchanged and reports nothing —
/// and therefore so does every later repetition.
pub proof fn lemma_steady_state_silent(
    cur: Orientation,
    fx: int,
    fy: int,
    fz: int,
    x: int,
    y: int,
    z: int,
    alpha_milli: int,
)
    requires
        filter_step(fx, x, alpha_milli) == fx,
        filter_step(fy, y, alpha_milli) == fy,
        filter_step(fz, z, alpha_milli) == fz,
        classify(fx, fy, fz) == Some(cur) || classify(fx, fy, fz) is None,
    ensures
        report(cur, classify(filter_step(fx, x, alpha_milli), filter_step(fy, y, alpha_milli),
        filter_step(fz, z, alpha_milli))) == (cur, None::<Orientation>),
{
}

/// No spurious landscape: while the Y axis stays at or under the threshold,
/// the classification is never a landscape orientation. Together with
/// `lemma_filter_step_bounded` (a bounded axis fed small samples stays
/// bounded) this rules landscape out during a rotation whose Y samples stay
/// small.
pub proof fn lemma_no_landscape_while_y_small(fx: int, fy: int, fz: int)
    requires
        -ORIENTATION_THRESHOLD <= fy <= ORIENTATION_THRESHOLD,
    ensures
        classify(fx, fy, fz) != Some(Orientation::LandscapeLeft),
        classify(fx, fy, fz) != Some(Orientation::LandscapeRight),
{
}

/// A rotation whose Y samples stay small never reports landscape: one filter
/// step on a quiet Y axis keeps it quiet, so whatever the X and Z axes do
/// during the transient, the classification after the step is not a
/// landscape orientation. Applied step by step this covers a whole rotation.
pub proof fn lemma_quiet_y_never_landscape(fx: int, fy: int, fz: int, y: int, alpha_milli: int)
    requires
        0 <= alpha_milli <= 1000,
        -ORIENTATION_THRESHOLD <= fy <= ORIENTATION_THRESHOLD,
        -ORIENTATION_THRESHOLD <= y * 1000 <= ORIENTATION_THRESHOLD,
    ensures
        -ORIENTATION_THRESHOLD <= filter_step(fy, y, alpha_milli) <= ORIENTATION_THRESHOLD,
        classify(fx, filter_step(fy, y, alpha_milli), fz) != Some(Orientation::LandscapeLeft),
        classify(fx, filter_step(fy, y, alpha_milli), fz) != Some(Orientation::LandscapeRight),
{
    crate::filter::lemma_filter_step_bounded(fy, y, alpha_milli, ORIENTATION_THRESHOLD as int);
}

} // verus!
