use orbit_sim::angle::{wrap_add, HALF_PI_NANOS, TAU_NANOS};
use orbit_sim::body::{
    rotation_delta, spawn_bodies, tick, tick_body, Body, SpawnError, CENTRAL_ROTATION_PERIOD,
};
use orbit_sim::config::Config;
use orbit_sim::orbit::{angle_delta, propagate, trace_samples, Orbit, OrbitalElements};

fn elements_flat() -> OrbitalElements {
    OrbitalElements {
        inclination: 0,
        longitude_ascending: 0,
        _arg_periapsis: 0,
        _eccentricity: 0,
        _semi_major_axis: 0,
        _mean_anomaly: 0,
    }
}

#[test]
fn defaults_match_spawn_values() {
    let o = Orbit::default();
    assert_eq!(o.speed, 0);
    assert_eq!(o.angle, HALF_PI_NANOS);
    let e = OrbitalElements::default();
    assert_eq!(e, elements_flat());
}

#[test]
fn zero_delta_is_a_no_op() {
    let mut orbit = Orbit { speed: 7670, angle: 123_456_789 };
    propagate(&mut orbit, 3600, 0, 6_771_000);
    assert_eq!(orbit.angle, 123_456_789);
    assert_eq!(orbit.speed, 7670);

    let mut bodies = spawn_bodies();
    let before = bodies.clone();
    let config = Config::new();
    tick(&mut bodies, &config, 0);
    assert_eq!(bodies, before);
}

#[test]
fn sixty_fps_frame_at_one_hour_scale() {
    // radius 6771 km, speed 7.67 km/s, one-hour preset, one 60 FPS frame:
    // the step is 3600 * 7670 * 16666 * 1000 / 6771000 nano-radians.
    let mut orbit = Orbit { speed: 7670, angle: 0 };
    propagate(&mut orbit, 3600, 16_666, 6_771_000);
    assert_eq!(orbit.angle, 67_963_608);
    propagate(&mut orbit, 3600, 16_666, 6_771_000);
    assert_eq!(orbit.angle, 135_927_216);
}

#[test]
fn angle_delta_exact_quotient() {
    assert_eq!(angle_delta(3600, 7670, 16_666, 6_771_000), 67_963_608);
    assert_eq!(angle_delta(0, 7670, 16_666, 6_771_000), 0);
    assert_eq!(angle_delta(7200, 7670, 16_666, 6_771_000), 2 * 67_963_608);
}

#[test]
fn angle_stays_wrapped() {
    let mut orbit = Orbit { speed: 1000, angle: TAU_NANOS - 1 };
    // One full real second at unit scale on a 1 km orbit sweeps a whole
    // radian in nano-units: 1 * 1000 * 1000000 * 1000 / 1000.
    propagate(&mut orbit, 1, 1_000_000, 1000);
    assert_eq!(orbit.angle, 999_999_999);
    assert!(orbit.angle < TAU_NANOS);
    for _ in 0..50 {
        propagate(&mut orbit, 86400, 16_666, 1000);
        assert!(orbit.angle < TAU_NANOS);
    }
}

#[test]
fn wrap_add_reduces_by_whole_turns() {
    assert_eq!(wrap_add(0, TAU_NANOS as u128), 0);
    assert_eq!(wrap_add(5, 3 * TAU_NANOS as u128), 5);
    assert_eq!(wrap_add(TAU_NANOS - 1, 2), 1);
    assert_eq!(wrap_add(17, 0), 17);
}

#[test]
fn central_body_rotation() {
    // A real second at the one-day preset turns the central body once.
    assert_eq!(
        rotation_delta(86_400, 1_000_000, CENTRAL_ROTATION_PERIOD),
        TAU_NANOS as u128
    );
    let mut body = Body::central(CENTRAL_ROTATION_PERIOD);
    tick_body(&mut body, 86_400, 1_000_000);
    match body {
        Body::Central { rotation_angle, rotation_period } => {
            assert_eq!(rotation_angle, 0);
            assert_eq!(rotation_period, CENTRAL_ROTATION_PERIOD);
        }
        Body::Orbiting { .. } => panic!("central body changed kind"),
    }
    // At the one-hour preset the same frame turns it a 24th of the way.
    tick_body(&mut body, 3600, 1_000_000);
    match body {
        Body::Central { rotation_angle, .. } => assert_eq!(rotation_angle, 261_799_387),
        Body::Orbiting { .. } => panic!("central body changed kind"),
    }
}

#[test]
fn trace_covers_one_revolution_ahead() {
    let samples = trace_samples(42);
    assert_eq!(samples.len(), 1001);
    assert_eq!(samples[0].angle, 42);
    assert_eq!(samples[0].alpha, 1000);
    assert_eq!(samples[500].angle, 42 + 3_141_592_653);
    assert_eq!(samples[500].alpha, 500);
    assert_eq!(samples[1000].angle, 42 + TAU_NANOS);
    assert_eq!(samples[1000].alpha, 0);
    for (i, s) in samples.iter().enumerate() {
        assert_eq!(s.angle, 42 + (i as u64 * TAU_NANOS) / 1000);
        assert_eq!(s.alpha as usize, 1000 - i);
    }
}

#[test]
fn spawn_creates_central_body_and_four_satellites() {
    let bodies = spawn_bodies();
    assert_eq!(bodies.len(), 5);
    match bodies[0] {
        Body::Central { rotation_angle, rotation_period } => {
            assert_eq!(rotation_angle, 0);
            assert_eq!(rotation_period, 86_400);
        }
        Body::Orbiting { .. } => panic!("first body must be the central one"),
    }
    let inclinations: [i64; 4] = [0, 785_398_163, -1_047_197_551, 4_712_388_980];
    let longitudes: [i64; 4] = [0, -785_398_163, 0, 0];
    for i in 0..4 {
        match bodies[i + 1] {
            Body::Orbiting { radius, elements, orbit } => {
                assert_eq!(radius, 6_771_000);
                assert_eq!(orbit.speed, 7670);
                assert_eq!(orbit.angle, HALF_PI_NANOS);
                assert_eq!(elements.inclination, inclinations[i]);
                assert_eq!(elements.longitude_ascending, longitudes[i]);
                assert_eq!(elements._eccentricity, 0);
                assert_eq!(elements._semi_major_axis, 0);
            }
            Body::Central { .. } => panic!("satellites must orbit"),
        }
    }
}

#[test]
fn many_whole_turns_wrap_in_one_step() {
    // A 1000-second real frame at the one-day preset sweeps 15576 whole
    // turns and ends at the exact remainder.
    let mut orbit = Orbit { speed: 7670, angle: 0 };
    propagate(&mut orbit, 86_400, 1_000_000_000, 6_771_000);
    assert_eq!(orbit.angle, 4_616_513_285);
    assert!(orbit.angle < TAU_NANOS);
}

#[test]
fn tick_on_empty_registry_does_nothing() {
    let mut bodies: Vec<Body> = Vec::new();
    let config = Config::new();
    tick(&mut bodies, &config, 16_666);
    assert!(bodies.is_empty());
}

#[test]
fn zero_radius_is_rejected_at_spawn() {
    let r = Body::orbiting(0, elements_flat(), Orbit::default());
    assert_eq!(r, Err(SpawnError::ZeroRadius));
    let ok = Body::orbiting(6_771_000, elements_flat(), Orbit::default());
    assert!(ok.is_ok());
}

#[test]
fn tick_advances_every_satellite_under_one_clock() {
    let mut bodies = spawn_bodies();
    let config = Config::new();
    tick(&mut bodies, &config, 16_666);
    for body in bodies.iter().skip(1) {
        match body {
            Body::Orbiting { orbit, .. } => {
                assert_eq!(orbit.angle, HALF_PI_NANOS + 67_963_608);
                assert_eq!(orbit.speed, 7670);
            }
            Body::Central { .. } => panic!("satellites must orbit"),
        }
    }
}
