//! Orbit-camera state: yaw, pitch and distance accumulated from input deltas.
//!
//! Yaw is unbounded (the horizontal orbit may wind any number of times);
//! pitch is clamped short of the poles to avoid gimbal lock; distance is
//! clamped to a working zoom range.  All values are 16.16 fixed point, in
//! the raw units the input layer delivers (pixels of drag, scroll steps):
//! the angle and distance read out for matrix building are the raw values
//! scaled by the sensitivity factors below.

use vstd::prelude::*;
use crate::fixed::{add_clamped, clamp_spec, div_trunc, mul_div};

verus! {

/// Raw yaw and pitch are divided by this to give radians (sensitivity 1/60).
pub const ANGLE_DIVISOR: i64 = 60;

/// Raw distance is divided by this to give world units (sensitivity 0.5).
pub const DISTANCE_DIVISOR: i64 = 2;

/// Pitch clamp bound in raw fixed-point units: 95 percent of the vertical
/// limit, 0.95 * (pi / 2) * 60 = 89.5353..., truncated to 16.16 fixed point.
pub const MAX_PITCH: i64 = 5867791;

/// Smallest raw distance, 0.5 / 0.5 = 1.0 in fixed point.
pub const MIN_DISTANCE: i64 = 65536;

/// Largest raw distance, 15.0 / 0.5 = 30.0 in fixed point.
pub const MAX_DISTANCE: i64 = 30 * 65536;

/// Raw distance a fresh camera starts at, 1.5 in fixed point.
pub const INITIAL_DISTANCE: i64 = 98304;

/// Orbit-camera state in raw fixed-point input units.
pub struct CameraState {
    /// Horizontal orbit angle, unbounded.
    pub yaw: i64,
    /// Vertical orbit angle, clamped to `[-MAX_PITCH, MAX_PITCH]`.
    pub pitch: i64,
    /// Distance from the look-at target, clamped to
    /// `[MIN_DISTANCE, MAX_DISTANCE]`.
    pub distance: i64,
}

impl CameraState {
    /// The clamps hold: pitch short of the poles, distance in zoom range.
    pub open spec fn wf(self) -> bool {
        &&& -MAX_PITCH <= self.pitch <= MAX_PITCH
        &&& MIN_DISTANCE <= self.distance <= MAX_DISTANCE
    }

    /// A camera at rest: zero orientation, initial distance.
    pub fn new() -> (s: CameraState)
        ensures
            s.yaw == 0,
            s.pitch == 0,
            s.distance == INITIAL_DISTANCE,
            s.wf(),
    {
        CameraState { yaw: 0, pitch: 0, distance: INITIAL_DISTANCE }
    }

    /// Accumulate a drag delta: yaw adds `dx` (wrapping, unbounded orbit),
    /// pitch adds `dy` and is clamped to `[-MAX_PITCH, MAX_PITCH]`.
    /// After any call the pitch lies in that interval, whatever the deltas.
    pub fn apply_orientation_delta(&mut self, dx: i64, dy: i64)
        ensures
            final(self).yaw == old(self).yaw.wrapping_add(dx),
            final(self).pitch == clamp_spec(
                old(self).pitch + dy,
                -MAX_PITCH as int,
                MAX_PITCH as int,
            ),
            -MAX_PITCH <= final(self).pitch <= MAX_PITCH,
            final(self).distance == old(self).distance,
            old(self).wf() ==> final(self).wf(),
    {
        self.yaw = self.yaw.wrapping_add(dx);
        self.pitch = add_clamped(self.pitch, dy, -MAX_PITCH, MAX_PITCH);
    }

    /// Accumulate a zoom delta: distance adds `delta` and is clamped to
    /// `[MIN_DISTANCE, MAX_DISTANCE]`.  After any call the distance lies in
    /// that interval, whatever the delta.
    pub fn apply_distance_delta(&mut self, delta: i64)
        ensures
            final(self).distance == clamp_spec(
                old(self).distance + delta,
                MIN_DISTANCE as int,
                MAX_DISTANCE as int,
            ),
            MIN_DISTANCE <= final(self).distance <= MAX_DISTANCE,
            final(self).yaw == old(self).yaw,
            final(self).pitch == old(self).pitch,
            old(self).wf() ==> final(self).wf(),
    {
        self.distance = add_clamped(self.distance, delta, MIN_DISTANCE, MAX_DISTANCE);
    }

    /// Yaw in fixed-point radians: raw yaw divided by `ANGLE_DIVISOR`.
    pub fn yaw_angle(&self) -> (r: i64)
        ensures
            r == div_trunc(self.yaw as int, ANGLE_DIVISOR as int),
    {
        proof {
            crate::fixed::lemma_div_trunc_bounds(self.yaw as int, ANGLE_DIVISOR as int);
            if self.yaw < 0 {
                vstd::arithmetic::div_mod::lemma_div_decreases(
                    -(self.yaw as int),
                    ANGLE_DIVISOR as int,
                );
            }
        }
        mul_div(self.yaw, 1, ANGLE_DIVISOR)
    }

    /// Pitch in fixed-point radians: raw pitch divided by `ANGLE_DIVISOR`.
    pub fn pitch_angle(&self) -> (r: i64)
        ensures
            r == div_trunc(self.pitch as int, ANGLE_DIVISOR as int),
    {
        proof {
            crate::fixed::lemma_div_trunc_bounds(self.pitch as int, ANGLE_DIVISOR as int);
            if self.pitch < 0 {
                vstd::arithmetic::div_mod::lemma_div_decreases(
                    -(self.pitch as int),
                    ANGLE_DIVISOR as int,
                );
            }
        }
        mul_div(self.pitch, 1, ANGLE_DIVISOR)
    }

    /// Distance in fixed-point world units: raw distance divided by
    /// `DISTANCE_DIVISOR`.
    pub fn scaled_distance(&self) -> (r: i64)
        requires
            self.wf(),
        ensures
            r == div_trunc(self.distance as int, DISTANCE_DIVISOR as int),
            0 < r <= MAX_DISTANCE,
    {
        proof {
            crate::fixed::lemma_div_trunc_bounds(self.distance as int, DISTANCE_DIVISOR as int);
            vstd::arithmetic::div_mod::lemma_div_pos_is_pos(
                self.distance as int,
                DISTANCE_DIVISOR as int,
            );
        }
        let r = mul_div(self.distance, 1, DISTANCE_DIVISOR);
        proof {
            assert(div_trunc(self.distance as int, 2) > 0) by {
                assert(self.distance as int / 2 >= 65536int / 2) by {
                    vstd::arithmetic::div_mod::lemma_div_is_ordered(
                        65536,
                        self.distance as int,
                        2,
                    );
                }
                assert(65536int / 2 == 32768);
            }
        }
        r
    }
}

} // verus!
