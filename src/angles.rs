//! Orientation without roll, as a pitch and a yaw in radians.
//!
//! Angles are binary32 bit patterns (see `binary32`). `PitchYaw` wraps its
//! yaw around the circle; `PitchYawClamped` clamps both axes to bounds that
//! each value carries. This module holds what these types do exactly:
//! construction, axis clamping and the clamped normalization.
use crate::binary32::{
    abs, absolute, clamp, clamp_to, is_nan, le, less, lt, negate, neg, rank, valid_bounds, ZERO,
};
use vstd::prelude::*;

verus! {

/// Default pitch bound of `PitchYawClamped`: the binary32 value of
/// `PI / 2 - 0.001`.
pub const DEFAULT_CLAMP_P: u32 = 0x3FC8_EF16;

/// Default yaw bound of `PitchYawClamped`: the binary32 value of
/// `PI - 0.001`.
pub const DEFAULT_CLAMP_Y: u32 = 0x4048_FF79;

/// IEEE-754 equality of two binary32 patterns: both are numbers and they are
/// equal as numbers (so `0.0 == -0.0`, and a NaN equals nothing).
pub open spec fn same_number(a: u32, b: u32) -> bool {
    !is_nan(a) && !is_nan(b) && rank(a) == rank(b)
}

fn equal_numbers(a: u32, b: u32) -> (r: bool)
    ensures
        r == same_number(a, b),
{
    !crate::binary32::nan(a) && !crate::binary32::nan(b) && crate::binary32::rank_of(a)
        == crate::binary32::rank_of(b)
}

/// What `step_axis` returns.
pub open spec fn stepped_axis(delta: u32, dangle: u32, target: u32, stepped: u32) -> u32 {
    if lt(abs(delta), dangle) {
        target
    } else {
        stepped
    }
}

/// One axis of a step toward a target: the target itself when the
/// remaining distance `delta` is smaller in magnitude than the step size
/// `dangle`, else `stepped`, the current value moved by `dangle` toward the
/// target.
pub fn step_axis(delta: u32, dangle: u32, target: u32, stepped: u32) -> (r: u32)
    ensures
        r == stepped_axis(delta, dangle, target, stepped),
{
    if less(absolute(delta), dangle) {
        target
    } else {
        stepped
    }
}

/// Rotation without roll; yaw wraps around the circle.
#[derive(Clone, Copy, Debug)]
pub struct PitchYaw {
    /// Pitch rotation.
    pub p: u32,
    /// Yaw rotation.
    pub y: u32,
}

impl PitchYaw {
    /// A value from its yaw `u` and its pitch `v`.
    pub fn new(u: u32, v: u32) -> (r: Self)
        ensures
            r.y == u,
            r.p == v,
    {
        PitchYaw { y: u, p: v }
    }

    /// The yaw clamped to `[min, max]`.
    pub fn clamp_u(&self, min: u32, max: u32) -> (r: Self)
        requires
            valid_bounds(min, max),
        ensures
            r.y == clamp(self.y, min, max),
            r.p == self.p,
    {
        Self::new(clamp_to(self.y, min, max), self.p)
    }

    /// The pitch clamped to `[min, max]`.
    pub fn clamp_v(&self, min: u32, max: u32) -> (r: Self)
        requires
            valid_bounds(min, max),
        ensures
            r.y == self.y,
            r.p == clamp(self.p, min, max),
    {
        let v = clamp_to(self.p, min, max);
        Self::new(self.y, v)
    }

    /// Both axes clamped to `[min, max]`.
    pub fn clamp(&self, min: u32, max: u32) -> (r: Self)
        requires
            valid_bounds(min, max),
        ensures
            r.y == clamp(self.y, min, max),
            r.p == clamp(self.p, min, max),
    {
        self.clamp_u(min, max).clamp_v(min, max)
    }
}

impl Default for PitchYaw {
    fn default() -> (r: Self)
        ensures
            r.y == ZERO,
            r.p == ZERO,
    {
        Self::new(ZERO, ZERO)
    }
}

impl PartialEq for PitchYaw {
    fn eq(&self, other: &PitchYaw) -> (r: bool) {
        equal_numbers(self.p, other.p) && equal_numbers(self.y, other.y)
    }
}

impl vstd::std_specs::cmp::PartialEqSpecImpl for PitchYaw {
    open spec fn obeys_eq_spec() -> bool {
        true
    }

    open spec fn eq_spec(&self, other: &PitchYaw) -> bool {
        same_number(self.p, other.p) && same_number(self.y, other.y)
    }
}

/// Rotation without roll, clamped on both axes to its own bounds.
#[derive(Clone, Copy, Debug)]
pub struct PitchYawClamped {
    /// Pitch rotation.
    pub p: u32,
    /// Yaw rotation.
    pub y: u32,
    /// Pitch stays within `[-clamp_p, clamp_p]` once normalized.
    pub clamp_p: u32,
    /// Yaw stays within `[-clamp_y, clamp_y]` once normalized.
    pub clamp_y: u32,
}

impl PitchYawClamped {
    /// Bounds that normalization accepts: both are numbers, not below zero.
    pub open spec fn valid_clamps(&self) -> bool {
        le(ZERO, self.clamp_p) && le(ZERO, self.clamp_y)
    }

    /// What `normalize` returns: each axis clamped to its own bounds.
    pub open spec fn normalized(&self) -> Self {
        PitchYawClamped {
            p: clamp(self.p, neg(self.clamp_p), self.clamp_p),
            y: clamp(self.y, neg(self.clamp_y), self.clamp_y),
            clamp_p: self.clamp_p,
            clamp_y: self.clamp_y,
        }
    }

    /// A value from its yaw `u` and its pitch `v`, with the default bounds.
    pub fn new(u: u32, v: u32) -> (r: Self)
        ensures
            r.y == u,
            r.p == v,
            r.clamp_p == DEFAULT_CLAMP_P,
            r.clamp_y == DEFAULT_CLAMP_Y,
            r.valid_clamps(),
    {
        PitchYawClamped { y: u, p: v, clamp_p: DEFAULT_CLAMP_P, clamp_y: DEFAULT_CLAMP_Y }
    }

    /// A value from its yaw `u`, its pitch `v` and its bounds.
    pub fn new_with_clamps(u: u32, v: u32, clamp_p: u32, clamp_y: u32) -> (r: Self)
        ensures
            r.y == u,
            r.p == v,
            r.clamp_p == clamp_p,
            r.clamp_y == clamp_y,
    {
        PitchYawClamped { y: u, p: v, clamp_p, clamp_y }
    }

    /// The yaw clamped to `[min, max]`; the result has the default bounds.
    pub fn clamp_u(&self, min: u32, max: u32) -> (r: Self)
        requires
            valid_bounds(min, max),
        ensures
            r == Self::new_spec(clamp(self.y, min, max), self.p),
    {
        Self::new(clamp_to(self.y, min, max), self.p)
    }

    /// The pitch clamped to `[min, max]`; the result has the default bounds.
    pub fn clamp_v(&self, min: u32, max: u32) -> (r: Self)
        requires
            valid_bounds(min, max),
        ensures
            r == Self::new_spec(self.y, clamp(self.p, min, max)),
    {
        let v = clamp_to(self.p, min, max);
        Self::new(self.y, v)
    }

    /// Both axes clamped to `[min, max]`; the result has the default bounds.
    pub fn clamp(&self, min: u32, max: u32) -> (r: Self)
        requires
            valid_bounds(min, max),
        ensures
            r == Self::new_spec(clamp(self.y, min, max), clamp(self.p, min, max)),
    {
        self.clamp_u(min, max).clamp_v(min, max)
    }

    /// The value that `new(u, v)` returns.
    pub open spec fn new_spec(u: u32, v: u32) -> Self {
        PitchYawClamped { y: u, p: v, clamp_p: DEFAULT_CLAMP_P, clamp_y: DEFAULT_CLAMP_Y }
    }

    /// Each axis clamped to the value's own bounds: pitch to
    /// `[-clamp_p, clamp_p]`, yaw to `[-clamp_y, clamp_y]`. No wrapping.
    pub fn normalize(&self) -> (r: Self)
        requires
            self.valid_clamps(),
        ensures
            r == self.normalized(),
            r.valid_clamps(),
            !is_nan(self.p) ==> le(neg(self.clamp_p), r.p) && le(r.p, self.clamp_p),
            !is_nan(self.y) ==> le(neg(self.clamp_y), r.y) && le(r.y, self.clamp_y),
    {
        PitchYawClamped {
            p: clamp_to(self.p, negate(self.clamp_p), self.clamp_p),
            y: clamp_to(self.y, negate(self.clamp_y), self.clamp_y),
            ..*self
        }
    }
}

/// Normalizing a normalized value changes nothing: the result is the same,
/// bit for bit, as normalizing once.
pub proof fn lemma_normalize_idempotent(x: PitchYawClamped)
    requires
        x.valid_clamps(),
    ensures
        x.normalized().valid_clamps(),
        x.normalized().normalized() == x.normalized(),
{
    crate::binary32::lemma_clamp_idempotent(x.p, neg(x.clamp_p), x.clamp_p);
    crate::binary32::lemma_clamp_idempotent(x.y, neg(x.clamp_y), x.clamp_y);
}

/// A clamped step whose size exceeds the remaining distance on both axes
/// lands exactly on the target, normalized under the stepping value's own
/// bounds, whatever the moved values were.
pub proof fn lemma_step_within_reach_lands_on_target(
    current: PitchYawClamped,
    target: PitchYawClamped,
    delta: PitchYawClamped,
    dangle: u32,
    stepped_y: u32,
    stepped_p: u32,
)
    requires
        lt(abs(delta.y), dangle),
        lt(abs(delta.p), dangle),
    ensures
        (PitchYawClamped {
            y: stepped_axis(delta.y, dangle, target.y, stepped_y),
            p: stepped_axis(delta.p, dangle, target.p, stepped_p),
            clamp_p: current.clamp_p,
            clamp_y: current.clamp_y,
        }).normalized() == (PitchYawClamped {
            y: target.y,
            p: target.p,
            clamp_p: current.clamp_p,
            clamp_y: current.clamp_y,
        }).normalized(),
{
}

impl Default for PitchYawClamped {
    fn default() -> (r: Self)
        ensures
            r == Self::new_spec(ZERO, ZERO),
    {
        Self::new(ZERO, ZERO)
    }
}

impl PartialEq for PitchYawClamped {
    fn eq(&self, other: &PitchYawClamped) -> (r: bool) {
        equal_numbers(self.p, other.p) && equal_numbers(self.y, other.y) && equal_numbers(
            self.clamp_p,
            other.clamp_p,
        ) && equal_numbers(self.clamp_y, other.clamp_y)
    }
}

impl vstd::std_specs::cmp::PartialEqSpecImpl for PitchYawClamped {
    open spec fn obeys_eq_spec() -> bool {
        true
    }

    open spec fn eq_spec(&self, other: &PitchYawClamped) -> bool {
        &&& same_number(self.p, other.p)
        &&& same_number(self.y, other.y)
        &&& same_number(self.clamp_p, other.clamp_p)
        &&& same_number(self.clamp_y, other.clamp_y)
    }
}

impl From<PitchYaw> for PitchYawClamped {
    fn from(value: PitchYaw) -> (r: Self) {
        Self::new(value.y, value.p)
    }
}

impl vstd::std_specs::convert::FromSpecImpl<PitchYaw> for PitchYawClamped {
    open spec fn obeys_from_spec() -> bool {
        true
    }

    open spec fn from_spec(v: PitchYaw) -> Self {
        Self::new_spec(v.y, v.p)
    }
}

impl From<PitchYawClamped> for PitchYaw {
    fn from(value: PitchYawClamped) -> (r: Self) {
        Self::new(value.y, value.p)
    }
}

impl vstd::std_specs::convert::FromSpecImpl<PitchYawClamped> for PitchYaw {
    open spec fn obeys_from_spec() -> bool {
        true
    }

    open spec fn from_spec(v: PitchYawClamped) -> Self {
        PitchYaw { y: v.y, p: v.p }
    }
}

} // verus!
