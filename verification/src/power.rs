//! Power management from raw movement detection.
//!
//! Movement is the deviation of the Euclidean norm of the raw (unfiltered)
//! acceleration vector from resting gravity. The comparison
//! `|sqrt(x^2 + y^2 + z^2) - 1000| > threshold` is carried out exactly on
//! squared integers, so no rounding ever blurs the boundary. The device
//! drops to low power only after the tick counter has run past the
//! inactivity threshold since the last movement; until then the held state
//! is kept, a hysteresis that prevents chatter near the boundary.

use vstd::prelude::*;

verus! {

/// The two power states of the device.
#[derive(Clone, Copy, PartialEq, Eq, Structural, Debug)]
pub enum PowerState {
    Active,
    LowPower,
}

/// Default movement threshold in milligravity.
pub const DEFAULT_MOVEMENT_THRESHOLD: u32 = 75;

/// Ticks per second of the free-running timer the caller reads, which runs
/// at 1 MHz.
pub const TICKS_PER_SECOND: u32 = 1_000_000;

/// Default inactivity threshold: ten seconds in timer ticks.
pub const DEFAULT_INACTIVITY_THRESHOLD: u32 = 10 * TICKS_PER_SECOND;

/// Whether the movement of a raw sample exceeds the threshold:
/// `|sqrt(x^2 + y^2 + z^2) - 1000| > threshold`, stated exactly over squares.
/// The norm exceeds `1000 + threshold` exactly when its square does, and for
/// `threshold < 1000` it falls below `1000 - threshold` exactly when its
/// square does; for `threshold >= 1000` the norm, being nonnegative, can
/// never fall more than `threshold` below 1000.
pub open spec fn movement_exceeds(x: int, y: int, z: int, threshold: int) -> bool {
    let s: int = x * x + y * y + z * z;
    ||| s > (1000 + threshold) * (1000 + threshold)
    ||| (threshold < 1000 && s < (1000 - threshold) * (1000 - threshold))
}

/// Ticks elapsed since `last`, saturating at zero when the free-running
/// counter has wrapped past `last`, so a wraparound never reads as a huge
/// idle period.
pub open spec fn elapsed_ticks(current_time: int, last: int) -> int {
    if current_time >= last {
        current_time - last
    } else {
        0
    }
}

/// Tracks movement against the tick counter and decides the power state.
pub struct PowerManager {
    /// Threshold in milligravity for significant movement.
    pub movement_threshold: u32,
    /// Ticks of stillness before the device drops to low power.
    pub inactivity_threshold: u32,
    /// Tick count at which movement was last detected.
    pub last_movement_time: u32,
    pub current_state: PowerState,
}

impl PowerManager {
    /// The state the next sample would steer to: a moving sample holds the
    /// device active, a long-enough idle spell drops it to low power, and
    /// anything in between keeps the held state.
    pub open spec fn target_state(self, x: int, y: int, z: int, current_time: int) -> PowerState {
        if movement_exceeds(x, y, z, self.movement_threshold as int) {
            PowerState::Active
        } else if elapsed_ticks(current_time, self.last_movement_time as int)
            > self.inactivity_threshold as int {
            PowerState::LowPower
        } else {
            self.current_state
        }
    }

    /// Starts active with the default thresholds and the last movement at
    /// tick zero.
    pub fn new() -> (m: Self)
        ensures
            m.movement_threshold == DEFAULT_MOVEMENT_THRESHOLD,
            m.inactivity_threshold == DEFAULT_INACTIVITY_THRESHOLD,
            m.last_movement_time == 0,
            m.current_state == PowerState::Active,
    {
        Self {
            movement_threshold: DEFAULT_MOVEMENT_THRESHOLD,
            inactivity_threshold: DEFAULT_INACTIVITY_THRESHOLD,
            last_movement_time: 0,
            current_state: PowerState::Active,
        }
    }

    /// Starts active with the given thresholds (movement in milligravity,
    /// inactivity in ticks) and the last movement at tick zero.
    pub fn with_thresholds(movement_threshold: u32, inactivity_threshold: u32) -> (m: Self)
        ensures
            m.movement_threshold == movement_threshold,
            m.inactivity_threshold == inactivity_threshold,
            m.last_movement_time == 0,
            m.current_state == PowerState::Active,
    {
        Self {
            movement_threshold,
            inactivity_threshold,
            last_movement_time: 0,
            current_state: PowerState::Active,
        }
    }

    /// Feeds one raw sample (axes in milligravity) and the current tick
    /// count. Movement records the time and steers toward active; stillness
    /// past the inactivity threshold steers toward low power; otherwise the
    /// held state is kept. Returns the new state exactly on transition.
    pub fn process_accel_data(&mut self, x: i32, y: i32, z: i32, current_time: u32) -> (r: Option<
        PowerState,
    >)
        ensures
            final(self).movement_threshold == old(self).movement_threshold,
            final(self).inactivity_threshold == old(self).inactivity_threshold,
            final(self).last_movement_time == if movement_exceeds(
                x as int,
                y as int,
                z as int,
                old(self).movement_threshold as int,
            ) {
                current_time
            } else {
                old(self).last_movement_time
            },
            final(self).current_state == old(self).target_state(
                x as int,
                y as int,
                z as int,
                current_time as int,
            ),
            r == if old(self).target_state(x as int, y as int, z as int, current_time as int)
                != old(self).current_state {
                Some(old(self).target_state(x as int, y as int, z as int, current_time as int))
            } else {
                None::<PowerState>
            },
    {
        let moved = sample_moves(x, y, z, self.movement_threshold);

        let new_state = if moved {
            self.last_movement_time = current_time;
            PowerState::Active
        } else {
            let elapsed: u32 = if current_time >= self.last_movement_time {
                current_time - self.last_movement_time
            } else {
                0
            };
            if elapsed > self.inactivity_threshold {
                PowerState::LowPower
            } else {
                self.current_state
            }
        };

        if new_state != self.current_state {
            self.current_state = new_state;
            Some(new_state)
        } else {
            None
        }
    }

    /// The power state currently held, without side effects.
    pub fn get_state(&self) -> (r: PowerState)
        ensures
            r == self.current_state,
    {
        self.current_state
    }
}

/// Whether one raw sample's movement exceeds the threshold, computed on
/// squared magnitudes so the real-valued comparison is decided exactly.
fn sample_moves(x: i32, y: i32, z: i32, threshold: u32) -> (r: bool)
    ensures
        r == movement_exceeds(x as int, y as int, z as int, threshold as int),
{
    let xi: i64 = x as i64;
    let yi: i64 = y as i64;
    let zi: i64 = z as i64;
    assert(0 <= xi * xi <= 0x4000_0000_0000_0000 && 0 <= yi * yi <= 0x4000_0000_0000_0000 && 0
        <= zi * zi <= 0x4000_0000_0000_0000) by (nonlinear_arith)
        requires
            -0x8000_0000 <= xi <= 0x7fff_ffff,
            -0x8000_0000 <= yi <= 0x7fff_ffff,
            -0x8000_0000 <= zi <= 0x7fff_ffff,
    ;
    let s: u64 = (xi * xi) as u64 + (yi * yi) as u64 + (zi * zi) as u64;
    let hi: u64 = 1000 + threshold as u64;
    assert((hi as u128) * (hi as u128) <= 0xffff_ffff_ffff_ffff_ffff) by (nonlinear_arith)
        requires
            hi <= 0x1_0000_03e7,
    ;
    if (s as u128) > (hi as u128) * (hi as u128) {
        true
    } else if threshold < 1000 {
        let lo: u64 = (1000 - threshold) as u64;
        assert(lo * lo <= 1_000_000) by (nonlinear_arith)
            requires
                lo <= 1000,
        ;
        s < lo * lo
    } else {
        false
    }
}

/// Tick wraparound is safe: when the tick counter has wrapped — it reads
/// below the recorded last movement time — the elapsed time saturates at
/// zero, so the sample can never steer into low power; the only way to hold
/// low power then is to have been there already.
pub proof fn lemma_wraparound_no_lowpower(m: PowerManager, x: int, y: int, z: int, current_time: int)
    requires
        current_time < m.last_movement_time,
    ensures
        m.target_state(x, y, z, current_time) == PowerState::LowPower ==> m.current_state
            == PowerState::LowPower,
{
}

/// Hysteresis: a still sample within the inactivity window keeps the held
/// state, whichever it is, so the device cannot chatter between states near
/// the movement boundary.
pub proof fn lemma_hysteresis_keeps_state(m: PowerManager, x: int, y: int, z: int, current_time: int)
    requires
        !movement_exceeds(x, y, z, m.movement_threshold as int),
        elapsed_ticks(current_time, m.last_movement_time as int) <= m.inactivity_threshold as int,
    ensures
        m.target_state(x, y, z, current_time) == m.current_state,
{
}

} // verus!
