//! How long a track is held back after it starts playing.

use vstd::prelude::*;

verus! {

/// Specifies how repeated plays of one track are spaced on a channel.
#[derive(Clone, Copy, Debug, PartialEq, Eq, Hash, Structural)]
pub enum DelayMode {
    /// Waits for the track to finish before it may play again.
    ///
    /// This is the default behaviour.
    Wait,
    /// Always plays the track immediately.
    Immediate,
    /// Waits for a percentage of the track's length.
    /// - Values below 100 let repeated plays overlap.
    /// - Values above 100 leave a gap between them.
    ///
    /// With a track of 3000 ms and a value of 50, the track may play again
    /// 1500 ms after it started.
    Percent(u16),
    /// Waits for the track's length plus a number of milliseconds.
    /// - Negative values let repeated plays overlap.
    /// - Positive values leave a gap between them.
    ///
    /// With a track of 3000 ms and a value of -500, the track may play again
    /// 2500 ms after it started.
    Milliseconds(i16),
}

/// The larger of zero and `value`.
pub open spec fn at_least_zero(value: int) -> int {
    if value < 0 {
        0
    } else {
        value
    }
}

/// The delay, in milliseconds, that `mode` asks for after a track of
/// `track_duration` milliseconds starts: the track's length for `Wait`,
/// nothing for `Immediate`, the given share of the length for `Percent`, the
/// length plus the offset for `Milliseconds`, and never less than zero.
pub open spec fn effective_delay(mode: DelayMode, track_duration: int) -> int {
    at_least_zero(
        match mode {
            DelayMode::Wait => track_duration,
            DelayMode::Immediate => 0,
            DelayMode::Percent(percent) => track_duration * percent / 100,
            DelayMode::Milliseconds(ms) => track_duration + ms,
        },
    )
}

impl Default for DelayMode {
    fn default() -> (mode: Self)
        ensures
            mode == DelayMode::Wait,
    {
        DelayMode::Wait
    }
}

impl DelayMode {
    /// The delay in milliseconds after a track of `track_duration`
    /// milliseconds starts.
    pub fn get_delay(self, track_duration: u32) -> (delay: u64)
        ensures
            delay == effective_delay(self, track_duration as int),
    {
        match self {
            DelayMode::Wait => track_duration as u64,
            DelayMode::Immediate => 0,
            DelayMode::Percent(percent) => {
                assert(0 <= track_duration * percent <= 0xffff_ffff * 0xffff) by (nonlinear_arith)
                    requires
                        0 <= track_duration <= 0xffff_ffff,
                        0 <= percent <= 0xffff,
                ;
                (track_duration as u64) * (percent as u64) / 100
            },
            DelayMode::Milliseconds(ms) => {
                let shifted: i64 = track_duration as i64 + ms as i64;
                if shifted < 0 {
                    0
                } else {
                    shifted as u64
                }
            },
        }
    }
}

/// `Milliseconds` delays by the track's length plus the offset, or not at all
/// where that sum is negative.
pub proof fn lemma_milliseconds_delay(ms: i16, track_duration: int)
    ensures
        effective_delay(DelayMode::Milliseconds(ms), track_duration) == (if track_duration + ms
            < 0 {
            0
        } else {
            track_duration + ms
        }),
        effective_delay(DelayMode::Milliseconds(ms), track_duration) >= 0,
{
}

/// `Percent` delays by the given hundredths of the track's length, rounded
/// down, or not at all for a track of negative length. The share is not
/// capped: nothing of the length at 0, the length itself at 100, and at least
/// the length above 100.
pub proof fn lemma_percent_delay(percent: u16, track_duration: int)
    ensures
        effective_delay(DelayMode::Percent(percent), track_duration) == (if track_duration < 0 {
            0
        } else {
            track_duration * percent / 100
        }),
        effective_delay(DelayMode::Percent(percent), track_duration) >= 0,
        effective_delay(DelayMode::Percent(0), track_duration) == 0,
        effective_delay(DelayMode::Percent(100), track_duration) == at_least_zero(track_duration),
        percent > 100 && track_duration >= 0 ==> effective_delay(
            DelayMode::Percent(percent),
            track_duration,
        ) >= track_duration,
        percent > 100 && track_duration * (percent - 100) >= 100 ==> effective_delay(
            DelayMode::Percent(percent),
            track_duration,
        ) > track_duration,
{
    assert(track_duration * percent / 100 <= 0 || track_duration >= 0) by (nonlinear_arith)
        requires
            percent >= 0,
    ;
    assert(track_duration * percent / 100 >= 0 || track_duration < 0) by (nonlinear_arith)
        requires
            percent >= 0,
    ;
    assert(track_duration * 0 / 100 == 0) by (nonlinear_arith);
    assert(track_duration * 100 / 100 == track_duration) by (nonlinear_arith);
    if percent > 100 {
        assert(track_duration * percent == track_duration * 100 + track_duration * (percent - 100))
            by (nonlinear_arith);
        if track_duration >= 0 {
            assert(track_duration * (percent - 100) >= 0) by (nonlinear_arith)
                requires
                    track_duration >= 0,
                    percent > 100,
            ;
            assert((track_duration * 100 + track_duration * (percent - 100)) / 100
                >= track_duration) by (nonlinear_arith)
                requires
                    track_duration * (percent - 100) >= 0,
            ;
        }
        if track_duration * (percent - 100) >= 100 {
            assert((track_duration * 100 + track_duration * (percent - 100)) / 100
                > track_duration) by (nonlinear_arith)
                requires
                    track_duration * (percent - 100) >= 100,
            ;
            assert(track_duration > 0) by (nonlinear_arith)
                requires
                    track_duration * (percent - 100) >= 100,
                    percent > 100,
            ;
        }
    }
}

/// `Immediate` never delays, whatever the track's length.
pub proof fn lemma_immediate_delay(track_duration: int)
    ensures
        effective_delay(DelayMode::Immediate, track_duration) == 0,
{
}

/// `Wait` delays by the track's length.
pub proof fn lemma_wait_delay(track_duration: int)
    ensures
        effective_delay(DelayMode::Wait, track_duration) == at_least_zero(track_duration),
{
}

} // verus!
