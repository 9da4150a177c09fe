//! Circular-orbit state and its per-frame propagation.
//!
//! Each frame the phase angle of a body advances by
//! `scale * speed * dt / radius`: dividing the linear-speed constant by the
//! orbital radius turns it into an angular rate, so bodies farther out move
//! angularly slower. All arithmetic is exact over fixed units: the step in
//! nano-radians equals `scale_seconds * speed * delta_micros * 1000 /
//! radius_m`, rounded down. The angle is then wrapped back into one turn.

use crate::angle::{angle_wrapped, wrap_add, HALF_PI_NANOS, TAU_NANOS};
use vstd::arithmetic::div_mod::{
    lemma_div_of0, lemma_fundamental_div_mod, lemma_fundamental_div_mod_converse_div,
    lemma_mod_division_less_than_divisor,
};
use vstd::prelude::*;

verus! {

/// Number of segments of the drawn orbit trace: a visual-quality knob, not a
/// physical parameter.
pub const ORBIT_RESOLUTION: usize = 1000;

/// Static orbital parameters of one body. Only the inclination and the
/// longitude of the ascending node act on the current circular model; the
/// remaining elements are stored for future use and have no effect.
#[derive(Clone, Copy, Debug, PartialEq, Eq, Structural)]
pub struct OrbitalElements {
    /// Angle between the reference plane and the orbital plane, nano-radians.
    pub inclination: i64,
    /// Rotation of the orbital plane about the reference normal, nano-radians.
    pub longitude_ascending: i64,
    /// Argument of periapsis, nano-radians; unused by the circular model.
    pub _arg_periapsis: i64,
    /// Eccentricity in nano-units; unused by the circular model.
    pub _eccentricity: i64,
    /// Semi-major axis in meters; unused by the circular model.
    pub _semi_major_axis: i64,
    /// Mean anomaly, nano-radians; unused by the circular model.
    pub _mean_anomaly: i64,
}

impl Default for OrbitalElements {
    /// An equatorial, untilted orbit: every element zero.
    fn default() -> (r: Self)
        ensures
            r == (OrbitalElements {
                inclination: 0,
                longitude_ascending: 0,
                _arg_periapsis: 0,
                _eccentricity: 0,
                _semi_major_axis: 0,
                _mean_anomaly: 0,
            }),
    {
        OrbitalElements {
            inclination: 0,
            longitude_ascending: 0,
            _arg_periapsis: 0,
            _eccentricity: 0,
            _semi_major_axis: 0,
            _mean_anomaly: 0,
        }
    }
}

/// Dynamic orbital state of one body.
#[derive(Clone, Copy, Debug, PartialEq, Eq, Structural)]
pub struct Orbit {
    /// Distance-independent orbital speed constant, meters per second.
    pub speed: u64,
    /// Current phase angle, nano-radians, kept in `[0, TAU_NANOS)`.
    pub angle: u64,
}

impl Orbit {
    /// The stored phase angle is always in canonical wrapped form.
    pub open spec fn well_formed(self) -> bool {
        angle_wrapped(self.angle)
    }
}

impl Default for Orbit {
    /// At rest, a quarter turn into the orbit.
    fn default() -> (r: Self)
        ensures
            r == (Orbit { speed: 0, angle: HALF_PI_NANOS }),
            r.well_formed(),
    {
        Orbit { speed: 0, angle: HALF_PI_NANOS }
    }
}

/// The angular step of one frame, in nano-radians: the exact quotient
/// `scale * speed * dt * 1000 / radius`, rounded toward zero.
pub open spec fn angle_step(scale: int, speed: int, dt: int, radius: int) -> int {
    (scale * speed * dt * 1000) / radius
}

/// Compute the angular step of one frame.
///
/// `scale_seconds` is the clock multiplier, `speed` the body's speed in
/// meters per second, `delta_micros` the real frame time in microseconds and
/// `radius_m` the orbital radius in meters.
pub fn angle_delta(scale_seconds: u64, speed: u64, delta_micros: u64, radius_m: u64) -> (r: u128)
    requires
        radius_m > 0,
        scale_seconds * speed * delta_micros * 1000 <= u128::MAX,
    ensures
        r == angle_step(scale_seconds as int, speed as int, delta_micros as int, radius_m as int),
{
    proof {
        assert((scale_seconds as int) * (speed as int) <= u64::MAX * u64::MAX)
            by (nonlinear_arith)
            requires
                scale_seconds <= u64::MAX,
                speed <= u64::MAX,
        ;
        assert((scale_seconds * speed) * delta_micros <= (scale_seconds * speed) * delta_micros
            * 1000)
            by (nonlinear_arith)
        ;
    }
    let linear: u128 = (scale_seconds as u128) * (speed as u128);
    let swept: u128 = linear * (delta_micros as u128);
    let nanos: u128 = swept * 1000;
    nanos / (radius_m as u128)
}

/// Advance the phase angle of one orbit by one frame.
///
/// The new angle is the old angle plus this frame's angular step, wrapped
/// into `[0, TAU_NANOS)`. A frame of zero real time changes nothing, and the
/// speed constant is never touched.
pub fn propagate(orbit: &mut Orbit, scale_seconds: u64, delta_micros: u64, radius_m: u64)
    requires
        old(orbit).well_formed(),
        radius_m > 0,
        scale_seconds * old(orbit).speed * delta_micros * 1000 <= u128::MAX,
    ensures
        final(orbit).well_formed(),
        final(orbit).speed == old(orbit).speed,
        final(orbit).angle == (old(orbit).angle + angle_step(
            scale_seconds as int,
            old(orbit).speed as int,
            delta_micros as int,
            radius_m as int,
        )) % (TAU_NANOS as int),
        delta_micros == 0 ==> *final(orbit) == *old(orbit),
{
    let delta: u128 = angle_delta(scale_seconds, orbit.speed, delta_micros, radius_m);
    proof {
        if delta_micros == 0 {
            assert(scale_seconds * orbit.speed * (delta_micros as int) * 1000 == 0);
            lemma_div_of0(radius_m as int);
        }
    }
    orbit.angle = wrap_add(orbit.angle, delta);
}

/// One sample of the drawn orbit trace.
#[derive(Clone, Copy, Debug, PartialEq, Eq, Structural)]
pub struct TraceSample {
    /// Curve parameter in nano-radians, starting at the body's current phase
    /// angle and running one full turn ahead; not wrapped, so a caller can
    /// feed it straight into a parametric path function.
    pub angle: u64,
    /// Opacity in thousandths: fully opaque at the body's current position,
    /// fading linearly to transparent one full revolution ahead.
    pub alpha: u16,
}

/// Sample points of the orbit trace for a body currently at `angle`.
///
/// The trace covers one full revolution ahead of the body in
/// `ORBIT_RESOLUTION` equal segments, so it has `ORBIT_RESOLUTION + 1`
/// samples: sample `i` sits `i / ORBIT_RESOLUTION` of a turn ahead and its
/// opacity is `1 - i / ORBIT_RESOLUTION`, a comet-trail reading of the
/// future path.
pub fn trace_samples(angle: u64) -> (samples: Vec<TraceSample>)
    requires
        angle_wrapped(angle),
    ensures
        samples@.len() == ORBIT_RESOLUTION + 1,
        forall|i: int|
            0 <= i < samples@.len() ==> (#[trigger] samples@[i]).angle == angle + (i * (
            TAU_NANOS as int)) / (ORBIT_RESOLUTION as int),
        forall|i: int|
            0 <= i < samples@.len() ==> (#[trigger] samples@[i]).alpha == ORBIT_RESOLUTION - i,
{
    let mut samples: Vec<TraceSample> = Vec::new();
    let mut n: usize = 0;
    while n <= ORBIT_RESOLUTION
        invariant
            angle_wrapped(angle),
            n <= ORBIT_RESOLUTION + 1,
            samples@.len() == n,
            forall|i: int|
                0 <= i < n ==> (#[trigger] samples@[i]).angle == angle + (i * (TAU_NANOS as int))
                    / (ORBIT_RESOLUTION as int),
            forall|i: int| 0 <= i < n ==> (#[trigger] samples@[i]).alpha == ORBIT_RESOLUTION - i,
        decreases ORBIT_RESOLUTION + 1 - n,
    {
        let ahead: u64 = ((n as u64) * TAU_NANOS) / (ORBIT_RESOLUTION as u64);
        samples.push(TraceSample { angle: angle + ahead, alpha: (ORBIT_RESOLUTION - n) as u16 });
        n = n + 1;
    }
    samples
}

/// Scale linearity: doubling the clock multiplier, with the real frame time
/// held fixed, exactly doubles the angular step — whenever the doubled
/// remainder of the underlying quotient still falls short of the radius, so
/// that rounding the quantized quotient down loses nothing.
pub proof fn lemma_scale_linearity(scale: int, speed: int, dt: int, radius: int)
    requires
        0 <= scale,
        0 <= speed,
        0 <= dt,
        0 < radius,
        2 * ((scale * speed * dt * 1000) % radius) < radius,
    ensures
        angle_step(2 * scale, speed, dt, radius) == 2 * angle_step(scale, speed, dt, radius),
{
    let n = scale * speed * dt * 1000;
    let q = n / radius;
    let m = n % radius;
    assert((2 * scale) * speed * dt * 1000 == 2 * n)
        by (nonlinear_arith)
        requires
            n == scale * speed * dt * 1000,
    ;
    lemma_fundamental_div_mod(n, radius);
    lemma_mod_division_less_than_divisor(n, radius);
    assert(2 * n == (2 * q) * radius + 2 * m)
        by (nonlinear_arith)
        requires
            n == radius * q + m,
    ;
    lemma_fundamental_div_mod_converse_div(2 * n, radius, 2 * q, 2 * m);
}

} // verus!
