use orbit_sim::config::{Config, TimeSpeed};

#[test]
fn default_preset_is_one_hour() {
    let c = Config::new();
    assert_eq!(c.time_scale, 3600);
    assert_eq!(c.time_speed, TimeSpeed::Hour);
    assert_eq!(c.current_scale_seconds(), 3600);
    assert_eq!(c.describe_current_speed(), "1 second = 1 hour");
    let d = Config::default();
    assert_eq!(d.time_speed, TimeSpeed::Hour);
    assert_eq!(d.time_scale, 3600);
}

#[test]
fn seconds_table() {
    assert_eq!(TimeSpeed::Second.to_seconds(), 1);
    assert_eq!(TimeSpeed::Minute.to_seconds(), 60);
    assert_eq!(TimeSpeed::Minutes10.to_seconds(), 600);
    assert_eq!(TimeSpeed::Minutes30.to_seconds(), 1800);
    assert_eq!(TimeSpeed::Hour.to_seconds(), 3600);
    assert_eq!(TimeSpeed::Day.to_seconds(), 86400);
}

#[test]
fn description_table() {
    assert_eq!(TimeSpeed::Second.to_description(), "1 second");
    assert_eq!(TimeSpeed::Minute.to_description(), "1 minute");
    assert_eq!(TimeSpeed::Minutes10.to_description(), "10 minutes");
    assert_eq!(TimeSpeed::Minutes30.to_description(), "30 minutes");
    assert_eq!(TimeSpeed::Hour.to_description(), "1 hour");
    assert_eq!(TimeSpeed::Day.to_description(), "1 day");
}

#[test]
fn increase_then_decrease_restores_preset() {
    let below_fastest = [
        TimeSpeed::Second,
        TimeSpeed::Minute,
        TimeSpeed::Minutes10,
        TimeSpeed::Minutes30,
        TimeSpeed::Hour,
    ];
    for speed in below_fastest {
        let mut c = Config { time_speed: speed, time_scale: speed.to_seconds() };
        c.increase_speed();
        c.decrease_speed();
        assert_eq!(c.time_speed, speed);
        assert_eq!(c.time_scale, speed.to_seconds());
    }
}

#[test]
fn decrease_at_slowest_is_idempotent() {
    let mut c = Config { time_speed: TimeSpeed::Second, time_scale: 1 };
    for _ in 0..10 {
        c.decrease_speed();
        assert_eq!(c.time_speed, TimeSpeed::Second);
        assert_eq!(c.time_scale, 1);
    }
}

#[test]
fn increasing_walks_the_table_upward() {
    let mut c = Config { time_speed: TimeSpeed::Second, time_scale: 1 };
    let expected = [60, 600, 1800, 3600, 86400];
    for scale in expected {
        c.increase_speed();
        assert_eq!(c.time_scale, scale);
        assert_eq!(c.current_scale_seconds(), scale);
    }
}

#[test]
fn five_increases_reach_one_day_and_stick() {
    let mut c = Config::new();
    for _ in 0..5 {
        c.increase_speed();
    }
    assert_eq!(c.time_speed, TimeSpeed::Day);
    assert_eq!(c.time_scale, 86400);
    assert_eq!(c.time_speed.to_description(), "1 day");
    assert_eq!(c.describe_current_speed(), "1 second = 1 day");
    c.increase_speed();
    assert_eq!(c.time_speed, TimeSpeed::Day);
    assert_eq!(c.time_scale, 86400);
}
