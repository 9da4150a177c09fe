//! The scene's body records and the per-frame update pass.
//!
//! A body is either the central body, which only rotates about its own axis,
//! or an orbiting body, which carries static orbital elements and dynamic
//! orbital state. The registry is a plain vector of such records; one tick
//! advances every record under one clock reading, so all bodies of a frame
//! see the same, already-updated time scale.

use crate::angle::{angle_wrapped, wrap_add, HALF_PI_NANOS, TAU_NANOS};
use crate::config::Config;
use crate::orbit::{angle_step, propagate, Orbit, OrbitalElements};
use vstd::arithmetic::div_mod::{lemma_div_of0, lemma_mod_division_less_than_divisor};
use vstd::prelude::*;

verus! {

/// Radius of the central body in meters (half its diameter of 12742 km).
pub const CENTRAL_RADIUS_M: u64 = 6_371_000;

/// Altitude of the spawned satellites above the central body, meters.
pub const SATELLITE_ALTITUDE_M: u64 = 400_000;

/// Orbital speed constant of the spawned satellites, meters per second.
pub const SATELLITE_SPEED: u64 = 7_670;

/// Self-rotation period of the central body, seconds of simulated time.
pub const CENTRAL_ROTATION_PERIOD: u64 = 86_400;

/// A quarter pi in nano-radians, rounded down.
pub const QUARTER_PI_NANOS: i64 = 785_398_163;

/// A third of pi in nano-radians, rounded down.
pub const THIRD_PI_NANOS: i64 = 1_047_197_551;

/// Three half pi in nano-radians, rounded down.
pub const THREE_HALF_PI_NANOS: i64 = 4_712_388_980;

/// One body record of the scene: the central body has a self-rotation phase
/// but no orbital state; a satellite orbits but does not self-rotate.
#[derive(Clone, Copy, Debug, PartialEq, Eq, Structural)]
pub enum Body {
    Central {
        /// Self-rotation phase, nano-radians, kept in `[0, TAU_NANOS)`.
        rotation_angle: u64,
        /// Fixed rotation period, seconds of simulated time; never zero.
        rotation_period: u64,
    },
    Orbiting {
        /// Distance from the origin in meters, fixed per body since the
        /// model is circular; never zero. The body's Cartesian position is
        /// derived from this radius, the elements and the phase angle.
        radius: u64,
        elements: OrbitalElements,
        orbit: Orbit,
    },
}

/// The one degenerate configuration: a body spawned at the origin, which the
/// propagator could not advance (its angular rate divides by the radius).
#[derive(Clone, Copy, Debug, PartialEq, Eq, Structural)]
pub enum SpawnError {
    ZeroRadius,
}

impl Body {
    /// Phase angles are wrapped and the divisors of both update formulas are
    /// nonzero.
    pub open spec fn well_formed(self) -> bool {
        match self {
            Body::Central { rotation_angle, rotation_period } => angle_wrapped(rotation_angle)
                && rotation_period > 0,
            Body::Orbiting { radius, elements, orbit } => radius > 0 && orbit.well_formed(),
        }
    }

    /// The central body, starting with its rotation phase at zero.
    pub fn central(rotation_period: u64) -> (r: Body)
        requires
            rotation_period > 0,
        ensures
            r == (Body::Central { rotation_angle: 0, rotation_period }),
            r.well_formed(),
    {
        Body::Central { rotation_angle: 0, rotation_period }
    }

    /// An orbiting body, rejected at spawn time when its radius is zero
    /// rather than letting the degenerate configuration reach the
    /// propagator.
    pub fn orbiting(radius: u64, elements: OrbitalElements, orbit: Orbit) -> (r: Result<
        Body,
        SpawnError,
    >)
        requires
            orbit.well_formed(),
        ensures
            r is Ok <==> radius > 0,
            radius > 0 ==> r == Ok::<Body, SpawnError>(Body::Orbiting { radius, elements, orbit }),
            radius == 0 ==> r == Err::<Body, SpawnError>(SpawnError::ZeroRadius),
            r is Ok ==> r->Ok_0.well_formed(),
    {
        if radius == 0 {
            Err(SpawnError::ZeroRadius)
        } else {
            Ok(Body::Orbiting { radius, elements, orbit })
        }
    }
}

/// The self-rotation step of one frame, in nano-radians: one full turn per
/// rotation period of simulated time, so the exact quotient
/// `scale * TAU_NANOS * dt / (period * 1_000_000)`, rounded down.
pub open spec fn rotation_step(scale: int, dt: int, period: int) -> int {
    (scale * (TAU_NANOS as int) * dt) / (period * 1_000_000)
}

/// Compute the self-rotation step of one frame.
///
/// `scale_seconds` is the clock multiplier, `delta_micros` the real frame
/// time in microseconds and `period_seconds` the body's rotation period.
pub fn rotation_delta(scale_seconds: u64, delta_micros: u64, period_seconds: u64) -> (r: u128)
    requires
        period_seconds > 0,
        scale_seconds * TAU_NANOS * delta_micros <= u128::MAX,
    ensures
        r == rotation_step(scale_seconds as int, delta_micros as int, period_seconds as int),
{
    let turn: u128 = (scale_seconds as u128) * (TAU_NANOS as u128);
    proof {
        assert(turn * delta_micros <= u128::MAX) by {
            assert(turn == scale_seconds * TAU_NANOS);
        }
    }
    let swept: u128 = turn * (delta_micros as u128);
    swept / ((period_seconds as u128) * 1_000_000)
}

/// What one tick makes of one body record: the central body's rotation phase
/// advances by the rotation step, an orbiting body's phase angle by the
/// angular step, both wrapped into one turn; everything else is unchanged.
pub open spec fn body_after_tick(b: Body, scale: int, dt: int) -> Body {
    match b {
        Body::Central { rotation_angle, rotation_period } => Body::Central {
            rotation_angle: ((rotation_angle + rotation_step(scale, dt, rotation_period as int)) % (
            TAU_NANOS as int)) as u64,
            rotation_period,
        },
        Body::Orbiting { radius, elements, orbit } => Body::Orbiting {
            radius,
            elements,
            orbit: Orbit {
                speed: orbit.speed,
                angle: ((orbit.angle + angle_step(scale, orbit.speed as int, dt, radius as int)) % (
                TAU_NANOS as int)) as u64,
            },
        },
    }
}

/// The update formulas' intermediate products fit the machine arithmetic.
pub open spec fn tick_fits(b: Body, scale: int, dt: int) -> bool {
    match b {
        Body::Central { rotation_angle, rotation_period } => scale * (TAU_NANOS as int) * dt
            <= u128::MAX,
        Body::Orbiting { radius, elements, orbit } => scale * orbit.speed * dt * 1000 <= u128::MAX,
    }
}

/// Wrapping is an invariant: whatever the clock multiplier and the frame
/// delta — one step of any sequence of updates — a well-formed body stays
/// well formed, its phase angle back inside `[0, TAU_NANOS)`.
pub proof fn lemma_tick_preserves_well_formed(b: Body, scale: int, dt: int)
    requires
        b.well_formed(),
    ensures
        body_after_tick(b, scale, dt).well_formed(),
{
    match b {
        Body::Central { rotation_angle, rotation_period } => {
            lemma_mod_division_less_than_divisor(
                rotation_angle + rotation_step(scale, dt, rotation_period as int),
                TAU_NANOS as int,
            );
        },
        Body::Orbiting { radius, elements, orbit } => {
            lemma_mod_division_less_than_divisor(
                orbit.angle + angle_step(scale, orbit.speed as int, dt, radius as int),
                TAU_NANOS as int,
            );
        },
    }
}

/// Advance one body by one frame. A frame of zero real time changes
/// nothing.
pub fn tick_body(body: &mut Body, scale_seconds: u64, delta_micros: u64)
    requires
        old(body).well_formed(),
        tick_fits(*old(body), scale_seconds as int, delta_micros as int),
    ensures
        final(body).well_formed(),
        *final(body) == body_after_tick(*old(body), scale_seconds as int, delta_micros as int),
        delta_micros == 0 ==> *final(body) == *old(body),
{
    let b: Body = *body;
    match b {
        Body::Central { rotation_angle, rotation_period } => {
            let delta: u128 = rotation_delta(scale_seconds, delta_micros, rotation_period);
            proof {
                if delta_micros == 0 {
                    assert(scale_seconds * (TAU_NANOS as int) * (delta_micros as int) == 0)
                        by (nonlinear_arith)
                        requires
                            delta_micros == 0,
                    ;
                    lemma_div_of0(rotation_period * 1_000_000);
                }
            }
            *body = Body::Central {
                rotation_angle: wrap_add(rotation_angle, delta),
                rotation_period,
            };
        },
        Body::Orbiting { radius, elements, orbit } => {
            let mut advanced: Orbit = orbit;
            propagate(&mut advanced, scale_seconds, delta_micros, radius);
            *body = Body::Orbiting { radius, elements, orbit: advanced };
        },
    }
}

/// Advance every body of the registry by one frame under one clock reading.
///
/// The clock is read, never written, here: every body of the frame sees the
/// same multiplier. The bodies are independent of one another; they are
/// updated in order, but no record reads another.
pub fn tick(bodies: &mut Vec<Body>, config: &Config, delta_micros: u64)
    requires
        config.well_formed(),
        forall|i: int| 0 <= i < old(bodies)@.len() ==> (#[trigger] old(bodies)@[i]).well_formed(),
        forall|i: int|
            0 <= i < old(bodies)@.len() ==> tick_fits(
                #[trigger] old(bodies)@[i],
                config.time_scale as int,
                delta_micros as int,
            ),
    ensures
        final(bodies)@.len() == old(bodies)@.len(),
        forall|i: int|
            0 <= i < old(bodies)@.len() ==> (#[trigger] final(bodies)@[i]) == body_after_tick(
                old(bodies)@[i],
                config.time_scale as int,
                delta_micros as int,
            ),
        forall|i: int| 0 <= i < old(bodies)@.len() ==> (#[trigger] final(bodies)@[i]).well_formed(),
        delta_micros == 0 ==> final(bodies)@ =~= old(bodies)@,
{
    let scale: u64 = config.current_scale_seconds();
    let len: usize = bodies.len();
    let mut idx: usize = 0;
    while idx < len
        invariant
            len == old(bodies)@.len(),
            bodies@.len() == len,
            idx <= len,
            forall|i: int| 0 <= i < len ==> (#[trigger] old(bodies)@[i]).well_formed(),
            forall|i: int|
                0 <= i < len ==> tick_fits(
                    #[trigger] old(bodies)@[i],
                    config.time_scale as int,
                    delta_micros as int,
                ),
            scale == config.time_scale,
            forall|i: int|
                0 <= i < idx ==> (#[trigger] bodies@[i]) == body_after_tick(
                    old(bodies)@[i],
                    config.time_scale as int,
                    delta_micros as int,
                ),
            forall|i: int| 0 <= i < idx ==> (#[trigger] bodies@[i]).well_formed(),
            forall|i: int| idx <= i < len ==> (#[trigger] bodies@[i]) == old(bodies)@[i],
            delta_micros == 0 ==> forall|i: int|
                0 <= i < idx ==> (#[trigger] bodies@[i]) == old(bodies)@[i],
        decreases len - idx,
    {
        let mut b: Body = bodies[idx];
        tick_body(&mut b, scale, delta_micros);
        bodies[idx] = b;
        idx = idx + 1;
    }
}

/// The records the scene starts from: the central body, then four
/// satellites that share one speed constant and one radius but carry
/// distinct hand-authored inclination and ascending-node pairs.
pub open spec fn initial_bodies() -> Seq<Body> {
    seq![
        Body::Central { rotation_angle: 0, rotation_period: CENTRAL_ROTATION_PERIOD },
        initial_satellite(0, 0),
        initial_satellite(QUARTER_PI_NANOS as int, -QUARTER_PI_NANOS as int),
        initial_satellite(-THIRD_PI_NANOS as int, 0),
        initial_satellite(THREE_HALF_PI_NANOS as int, 0),
    ]
}

/// One spawned satellite: at the shared radius and speed, a quarter turn
/// into its orbit, with the given tilt and node longitude and every unused
/// element zero.
pub open spec fn initial_satellite(inclination: int, longitude_ascending: int) -> Body {
    Body::Orbiting {
        radius: (CENTRAL_RADIUS_M + SATELLITE_ALTITUDE_M) as u64,
        elements: OrbitalElements {
            inclination: inclination as i64,
            longitude_ascending: longitude_ascending as i64,
            _arg_periapsis: 0,
            _eccentricity: 0,
            _semi_major_axis: 0,
            _mean_anomaly: 0,
        },
        orbit: Orbit { speed: SATELLITE_SPEED, angle: HALF_PI_NANOS },
    }
}

/// Create the scene's registry: the central body and its four satellites.
pub fn spawn_bodies() -> (bodies: Vec<Body>)
    ensures
        bodies@ =~= initial_bodies(),
        bodies@.len() == 5,
        forall|i: int| 0 <= i < bodies@.len() ==> (#[trigger] bodies@[i]).well_formed(),
{
    let mut bodies: Vec<Body> = Vec::new();
    bodies.push(Body::central(CENTRAL_ROTATION_PERIOD));
    let inclinations: [i64; 4] = [0, QUARTER_PI_NANOS, -THIRD_PI_NANOS, THREE_HALF_PI_NANOS];
    let longitudes: [i64; 4] = [0, -QUARTER_PI_NANOS, 0, 0];
    let mut idx: usize = 0;
    while idx < 4
        invariant
            idx <= 4,
            bodies@.len() == 1 + idx,
            bodies@[0] == initial_bodies()[0],
            inclinations@ =~= seq![
                0i64,
                QUARTER_PI_NANOS as i64,
                (-THIRD_PI_NANOS) as i64,
                THREE_HALF_PI_NANOS as i64,
            ],
            longitudes@ =~= seq![0i64, (-QUARTER_PI_NANOS) as i64, 0i64, 0i64],
            forall|i: int| 1 <= i < 1 + idx ==> bodies@[i] == initial_bodies()[i],
        decreases 4 - idx,
    {
        let elements = OrbitalElements {
            inclination: inclinations[idx],
            longitude_ascending: longitudes[idx],
            _arg_periapsis: 0,
            _eccentricity: 0,
            _semi_major_axis: 0,
            _mean_anomaly: 0,
        };
        let orbit = Orbit { speed: SATELLITE_SPEED, angle: HALF_PI_NANOS };
        match Body::orbiting(CENTRAL_RADIUS_M + SATELLITE_ALTITUDE_M, elements, orbit) {
            Ok(b) => {
                bodies.push(b);
            },
            Err(_) => {
                // The shared radius is a positive constant, so the zero-radius
                // rejection cannot be taken.
                proof {
                    assert(false);
                }
            },
        }
        idx = idx + 1;
    }
    proof {
        assert(bodies@ =~= initial_bodies());
    }
    bodies
}

} // verus!
