//! The tunable receiver parameters and the tab that selects which one the
//! arrow keys act on.

use vstd::prelude::*;

verus! {

/// Lowest tunable centre frequency, in hertz.
pub const FREQUENCY_MIN_HZ: u64 = 1_000_000;
/// Highest tunable centre frequency, in hertz.
pub const FREQUENCY_MAX_HZ: u64 = 6_000_000_000;
/// Frequency change of one key press, in hertz.
pub const FREQUENCY_STEP_HZ: u64 = 1_000_000;
/// Lowest gain, in decibels.
pub const GAIN_MIN_DB: u64 = 0;
/// Highest gain, in decibels.
pub const GAIN_MAX_DB: u64 = 60;
/// Gain change of one key press, in decibels.
pub const GAIN_STEP_DB: u64 = 1;
/// Lowest sample rate, in samples per second.
pub const SAMPLE_RATE_MIN_HZ: u64 = 100_000;
/// Highest sample rate, in samples per second.
pub const SAMPLE_RATE_MAX_HZ: u64 = 10_000_000;
/// Sample-rate change of one key press, in samples per second.
pub const SAMPLE_RATE_STEP_HZ: u64 = 100_000;

/// The parameter that the up and down keys adjust. The three tabs form a
/// cycle: moving right from the last one comes back to the first.
#[derive(Clone, Copy, Debug, PartialEq, Eq, Structural)]
pub enum Tab {
    Frequency,
    Gain,
    SampleRate,
}

impl Tab {
    /// Position of the tab on screen, from 0.
    pub open spec fn position(self) -> int {
        match self {
            Tab::Frequency => 0,
            Tab::Gain => 1,
            Tab::SampleRate => 2,
        }
    }

    /// The tab at a position, counted modulo the number of tabs.
    pub open spec fn at_position(p: int) -> Tab {
        if p % 3 == 0 {
            Tab::Frequency
        } else if p % 3 == 1 {
            Tab::Gain
        } else {
            Tab::SampleRate
        }
    }

    pub open spec fn spec_next(self) -> Tab {
        Tab::at_position(self.position() + 1)
    }

    pub open spec fn spec_prev(self) -> Tab {
        Tab::at_position(self.position() + 2)
    }

    /// The tab to the right, wrapping from the last to the first.
    pub fn next(self) -> (r: Tab)
        ensures
            r == self.spec_next(),
    {
        match self {
            Tab::Frequency => Tab::Gain,
            Tab::Gain => Tab::SampleRate,
            Tab::SampleRate => Tab::Frequency,
        }
    }

    /// The tab to the left, wrapping from the first to the last.
    pub fn prev(self) -> (r: Tab)
        ensures
            r == self.spec_prev(),
    {
        match self {
            Tab::Frequency => Tab::SampleRate,
            Tab::Gain => Tab::Frequency,
            Tab::SampleRate => Tab::Gain,
        }
    }

    /// Position of the tab on screen, from 0.
    pub fn index(self) -> (r: usize)
        ensures
            r as int == self.position(),
            r < 3,
    {
        match self {
            Tab::Frequency => 0,
            Tab::Gain => 1,
            Tab::SampleRate => 2,
        }
    }
}

/// Moving right three times, or right then left, or left then right, returns
/// to the starting tab; left of the first tab is the last, right of the last
/// is the first.
pub proof fn tab_navigation_is_cyclic(t: Tab)
    ensures
        t.spec_next().spec_next().spec_next() == t,
        t.spec_prev().spec_prev().spec_prev() == t,
        t.spec_next().spec_prev() == t,
        t.spec_prev().spec_next() == t,
        Tab::Frequency.spec_prev() == Tab::SampleRate,
        Tab::SampleRate.spec_next() == Tab::Frequency,
{
}

/// `v` limited to the closed interval `[lo, hi]`.
pub open spec fn clamp(v: int, lo: int, hi: int) -> int {
    if v < lo {
        lo
    } else if v > hi {
        hi
    } else {
        v
    }
}

/// One step up or down from `v`, limited to `[lo, hi]`.
pub open spec fn stepped(v: int, step: int, increase: bool, lo: int, hi: int) -> int {
    clamp(if increase { v + step } else { v - step }, lo, hi)
}

/// Computes `stepped` without leaving `u64`.
fn step_within(v: u64, step: u64, increase: bool, lo: u64, hi: u64) -> (r: u64)
    requires
        lo <= hi,
        step <= hi,
        lo + step <= u64::MAX,
    ensures
        r as int == stepped(v as int, step as int, increase, lo as int, hi as int),
{
    if increase {
        if v > hi - step {
            hi
        } else if v + step < lo {
            lo
        } else {
            v + step
        }
    } else {
        if v < lo + step {
            lo
        } else if v - step > hi {
            hi
        } else {
            v - step
        }
    }
}

/// The receiver's tuning: centre frequency, gain and sample rate.
#[derive(Clone, Copy, Debug, PartialEq, Eq, Structural)]
pub struct Parameters {
    pub frequency_hz: u64,
    pub gain_db: u64,
    pub sample_rate_hz: u64,
}

impl Parameters {
    /// Every parameter lies within its range.
    pub open spec fn wf(self) -> bool {
        &&& FREQUENCY_MIN_HZ <= self.frequency_hz <= FREQUENCY_MAX_HZ
        &&& GAIN_MIN_DB <= self.gain_db <= GAIN_MAX_DB
        &&& SAMPLE_RATE_MIN_HZ <= self.sample_rate_hz <= SAMPLE_RATE_MAX_HZ
    }

    /// The parameters after one step of the parameter that `tab` selects.
    pub open spec fn adjusted(self, tab: Tab, increase: bool) -> Parameters {
        match tab {
            Tab::Frequency => Parameters {
                frequency_hz: stepped(
                    self.frequency_hz as int,
                    FREQUENCY_STEP_HZ as int,
                    increase,
                    FREQUENCY_MIN_HZ as int,
                    FREQUENCY_MAX_HZ as int,
                ) as u64,
                ..self
            },
            Tab::Gain => Parameters {
                gain_db: stepped(
                    self.gain_db as int,
                    GAIN_STEP_DB as int,
                    increase,
                    GAIN_MIN_DB as int,
                    GAIN_MAX_DB as int,
                ) as u64,
                ..self
            },
            Tab::SampleRate => Parameters {
                sample_rate_hz: stepped(
                    self.sample_rate_hz as int,
                    SAMPLE_RATE_STEP_HZ as int,
                    increase,
                    SAMPLE_RATE_MIN_HZ as int,
                    SAMPLE_RATE_MAX_HZ as int,
                ) as u64,
                ..self
            },
        }
    }

    /// The start-up tuning: 890 MHz, 20 dB, one million samples per second.
    pub fn new() -> (r: Parameters)
        ensures
            r.frequency_hz == 890_000_000,
            r.gain_db == 20,
            r.sample_rate_hz == 1_000_000,
            r.wf(),
    {
        Parameters { frequency_hz: 890_000_000, gain_db: 20, sample_rate_hz: 1_000_000 }
    }

    /// Moves the parameter that `tab` selects one step up or down, stopping
    /// at the ends of its range; the other two are left as they are.
    pub fn adjust(&mut self, tab: Tab, increase: bool)
        ensures
            *final(self) == old(self).adjusted(tab, increase),
            old(self).wf() ==> final(self).wf(),
    {
        match tab {
            Tab::Frequency => {
                self.frequency_hz = step_within(
                    self.frequency_hz,
                    FREQUENCY_STEP_HZ,
                    increase,
                    FREQUENCY_MIN_HZ,
                    FREQUENCY_MAX_HZ,
                );
            },
            Tab::Gain => {
                self.gain_db = step_within(
                    self.gain_db,
                    GAIN_STEP_DB,
                    increase,
                    GAIN_MIN_DB,
                    GAIN_MAX_DB,
                );
            },
            Tab::SampleRate => {
                self.sample_rate_hz = step_within(
                    self.sample_rate_hz,
                    SAMPLE_RATE_STEP_HZ,
                    increase,
                    SAMPLE_RATE_MIN_HZ,
                    SAMPLE_RATE_MAX_HZ,
                );
            },
        }
    }
}

/// A step of any parameter, in either direction, from tuning within range
/// stays within range.
pub proof fn adjust_stays_in_range(p: Parameters, tab: Tab, increase: bool)
    requires
        p.wf(),
    ensures
        p.adjusted(tab, increase).wf(),
{
}

} // verus!
