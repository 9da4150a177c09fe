//! The simulation clock: a discrete table of "simulated seconds per real
//! second" presets, stepped up and down by user input.

use vstd::prelude::*;

verus! {

/// The ordered table of speed presets, from slowest to fastest.
#[derive(Clone, Copy, Debug, PartialEq, Eq, Structural)]
pub enum TimeSpeed {
    Second,
    Minute,
    Minutes10,
    Minutes30,
    Hour,
    Day,
}

/// Position of a preset in the ordered table (0 is slowest, 5 is fastest).
pub open spec fn index_of(s: TimeSpeed) -> int {
    match s {
        TimeSpeed::Second => 0,
        TimeSpeed::Minute => 1,
        TimeSpeed::Minutes10 => 2,
        TimeSpeed::Minutes30 => 3,
        TimeSpeed::Hour => 4,
        TimeSpeed::Day => 5,
    }
}

/// Simulated seconds represented by one real second under a preset.
pub open spec fn seconds_of(s: TimeSpeed) -> u64 {
    match s {
        TimeSpeed::Second => 1,
        TimeSpeed::Minute => 60,
        TimeSpeed::Minutes10 => 600,
        TimeSpeed::Minutes30 => 1800,
        TimeSpeed::Hour => 3600,
        TimeSpeed::Day => 86400,
    }
}

/// The preset one step faster; the fastest preset is a fixed point.
pub open spec fn next_speed(s: TimeSpeed) -> TimeSpeed {
    match s {
        TimeSpeed::Second => TimeSpeed::Minute,
        TimeSpeed::Minute => TimeSpeed::Minutes10,
        TimeSpeed::Minutes10 => TimeSpeed::Minutes30,
        TimeSpeed::Minutes30 => TimeSpeed::Hour,
        TimeSpeed::Hour => TimeSpeed::Day,
        TimeSpeed::Day => TimeSpeed::Day,
    }
}

/// The preset one step slower; the slowest preset is a fixed point.
pub open spec fn previous_speed(s: TimeSpeed) -> TimeSpeed {
    match s {
        TimeSpeed::Second => TimeSpeed::Second,
        TimeSpeed::Minute => TimeSpeed::Second,
        TimeSpeed::Minutes10 => TimeSpeed::Minute,
        TimeSpeed::Minutes30 => TimeSpeed::Minutes10,
        TimeSpeed::Hour => TimeSpeed::Minutes30,
        TimeSpeed::Day => TimeSpeed::Hour,
    }
}

impl TimeSpeed {
    /// Simulated seconds per real second for this preset.
    pub fn to_seconds(&self) -> (r: u64)
        ensures
            r == seconds_of(*self),
    {
        match self {
            TimeSpeed::Second => 1,
            TimeSpeed::Minute => 60,
            TimeSpeed::Minutes10 => 600,
            TimeSpeed::Minutes30 => 1800,
            TimeSpeed::Hour => 3600,
            TimeSpeed::Day => 86400,
        }
    }

    /// Human-readable label for this preset.
    pub fn to_description(&self) -> (r: &'static str)
        ensures
            *self == TimeSpeed::Second ==> r@ == "1 second"@,
            *self == TimeSpeed::Minute ==> r@ == "1 minute"@,
            *self == TimeSpeed::Minutes10 ==> r@ == "10 minutes"@,
            *self == TimeSpeed::Minutes30 ==> r@ == "30 minutes"@,
            *self == TimeSpeed::Hour ==> r@ == "1 hour"@,
            *self == TimeSpeed::Day ==> r@ == "1 day"@,
    {
        match self {
            TimeSpeed::Second => "1 second",
            TimeSpeed::Minute => "1 minute",
            TimeSpeed::Minutes10 => "10 minutes",
            TimeSpeed::Minutes30 => "30 minutes",
            TimeSpeed::Hour => "1 hour",
            TimeSpeed::Day => "1 day",
        }
    }
}

impl Default for TimeSpeed {
    /// The preset the clock starts on.
    fn default() -> (r: Self)
        ensures
            r == TimeSpeed::Hour,
    {
        TimeSpeed::Hour
    }
}

/// The simulation clock. `time_scale` is derived: it always holds the table
/// value for the current preset and is never set directly.
#[derive(Clone, Copy, Debug, PartialEq, Eq, Structural)]
pub struct Config {
    pub time_speed: TimeSpeed,
    pub time_scale: u64,
}

impl Config {
    /// The derived scale matches the table value for the current preset.
    pub open spec fn well_formed(self) -> bool {
        self.time_scale == seconds_of(self.time_speed)
    }

    /// A clock on the default preset (one real second is one simulated hour).
    pub fn new() -> (c: Config)
        ensures
            c.well_formed(),
            c.time_speed == TimeSpeed::Hour,
            c.time_scale == 3600,
    {
        Config { time_speed: TimeSpeed::Hour, time_scale: 3600 }
    }

    /// Step to the next faster preset; a no-op at the fastest.
    pub fn increase_speed(&mut self)
        requires
            old(self).well_formed(),
        ensures
            final(self).well_formed(),
            final(self).time_speed == next_speed(old(self).time_speed),
            final(self).time_scale == seconds_of(final(self).time_speed),
    {
        self.time_speed = match self.time_speed {
            TimeSpeed::Second => TimeSpeed::Minute,
            TimeSpeed::Minute => TimeSpeed::Minutes10,
            TimeSpeed::Minutes10 => TimeSpeed::Minutes30,
            TimeSpeed::Minutes30 => TimeSpeed::Hour,
            TimeSpeed::Hour => TimeSpeed::Day,
            TimeSpeed::Day => TimeSpeed::Day,
        };
        self.time_scale = self.time_speed.to_seconds();
    }

    /// Step to the next slower preset; a no-op at the slowest.
    pub fn decrease_speed(&mut self)
        requires
            old(self).well_formed(),
        ensures
            final(self).well_formed(),
            final(self).time_speed == previous_speed(old(self).time_speed),
            final(self).time_scale == seconds_of(final(self).time_speed),
    {
        self.time_speed = match self.time_speed {
            TimeSpeed::Second => TimeSpeed::Second,
            TimeSpeed::Minute => TimeSpeed::Second,
            TimeSpeed::Minutes10 => TimeSpeed::Minute,
            TimeSpeed::Minutes30 => TimeSpeed::Minutes10,
            TimeSpeed::Hour => TimeSpeed::Minutes30,
            TimeSpeed::Day => TimeSpeed::Hour,
        };
        self.time_scale = self.time_speed.to_seconds();
    }

    /// The multiplier read by every time-dependent update.
    pub fn current_scale_seconds(&self) -> (r: u64)
        ensures
            r == self.time_scale,
    {
        self.time_scale
    }

    /// The status line shown while the simulation runs.
    pub fn describe_current_speed(&self) -> (r: &'static str)
        ensures
            self.time_speed == TimeSpeed::Second ==> r@ == "1 second = 1 second"@,
            self.time_speed == TimeSpeed::Minute ==> r@ == "1 second = 1 minute"@,
            self.time_speed == TimeSpeed::Minutes10 ==> r@ == "1 second = 10 minutes"@,
            self.time_speed == TimeSpeed::Minutes30 ==> r@ == "1 second = 30 minutes"@,
            self.time_speed == TimeSpeed::Hour ==> r@ == "1 second = 1 hour"@,
            self.time_speed == TimeSpeed::Day ==> r@ == "1 second = 1 day"@,
    {
        match self.time_speed {
            TimeSpeed::Second => "1 second = 1 second",
            TimeSpeed::Minute => "1 second = 1 minute",
            TimeSpeed::Minutes10 => "1 second = 10 minutes",
            TimeSpeed::Minutes30 => "1 second = 30 minutes",
            TimeSpeed::Hour => "1 second = 1 hour",
            TimeSpeed::Day => "1 second = 1 day",
        }
    }
}

impl Default for Config {
    /// Same clock as `new`: default preset, derived scale.
    fn default() -> (c: Config)
        ensures
            c.well_formed(),
            c.time_speed == TimeSpeed::Hour,
            c.time_scale == 3600,
    {
        Config { time_speed: TimeSpeed::Hour, time_scale: 3600 }
    }
}

/// Stepping the clock up and then immediately down restores the original
/// preset, except at the fastest preset, where the step up is a no-op and
/// the step down then moves one below it; stepping down at the slowest
/// preset leaves the clock where it is, however often it is repeated.
pub proof fn lemma_speed_round_trip(s: TimeSpeed)
    ensures
        index_of(s) < 5 ==> previous_speed(next_speed(s)) == s,
        index_of(s) == 0 ==> previous_speed(s) == s,
{
}

/// The table of presets is strictly increasing: each step up multiplies the
/// scale, so a faster preset always means more simulated seconds per real
/// second.
pub proof fn lemma_speed_table_monotonic(a: TimeSpeed, b: TimeSpeed)
    ensures
        index_of(a) < index_of(b) ==> seconds_of(a) < seconds_of(b),
{
}

} // verus!
