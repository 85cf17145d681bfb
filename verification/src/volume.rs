//! Volumes, and how a channel, the global channel and a track combine.

use vstd::prelude::*;

verus! {

/// The loudest a volume can be, in thousandths: a volume of one.
pub const FULL_VOLUME: u32 = 1000;

/// `requested` held to the range from silence to full volume.
pub open spec fn clamped_volume(requested: int) -> int {
    if requested < 0 {
        0
    } else if requested > 1000 {
        1000
    } else {
        requested
    }
}

/// What a sink plays at, in billionths: the product of the three volumes.
pub open spec fn effective_volume(channel: int, global: int, track: int) -> int {
    channel * global * track
}

/// A volume between silence and full, in thousandths.
#[derive(Clone, Copy, Debug, PartialEq, Eq, Hash, Structural)]
pub struct Volume {
    thousandths: u32,
}

impl Volume {
    #[verifier::type_invariant]
    spec fn in_range(self) -> bool {
        self.thousandths <= FULL_VOLUME
    }

    /// The volume in thousandths.
    pub closed spec fn level(self) -> int {
        self.thousandths as int
    }

    /// The volume nearest to `requested` thousandths.
    pub fn new(requested: i32) -> (volume: Self)
        ensures
            volume.level() == clamped_volume(requested as int),
    {
        if requested < 0 {
            Volume { thousandths: 0 }
        } else if requested > 1000 {
            Volume { thousandths: FULL_VOLUME }
        } else {
            Volume { thousandths: requested as u32 }
        }
    }

    /// The volume in thousandths.
    pub fn get(&self) -> (level: u32)
        ensures
            level == self.level(),
            level <= FULL_VOLUME,
    {
        proof {
            use_type_invariant(self);
        }
        self.thousandths
    }
}

impl Default for Volume {
    fn default() -> (volume: Self)
        ensures
            volume.level() == FULL_VOLUME,
    {
        Volume { thousandths: FULL_VOLUME }
    }
}

/// Raising the requested volume of the channel, of the global channel or of
/// the track never lowers what the sink plays at.
pub proof fn lemma_effective_volume_monotone(
    channel: int,
    global: int,
    track: int,
    louder_channel: int,
    louder_global: int,
    louder_track: int,
)
    requires
        channel <= louder_channel,
        global <= louder_global,
        track <= louder_track,
    ensures
        effective_volume(clamped_volume(channel), clamped_volume(global), clamped_volume(track))
            <= effective_volume(
            clamped_volume(louder_channel),
            clamped_volume(louder_global),
            clamped_volume(louder_track),
        ),
        0 <= effective_volume(
            clamped_volume(channel),
            clamped_volume(global),
            clamped_volume(track),
        ) <= 1_000_000_000,
{
    let c = clamped_volume(channel);
    let g = clamped_volume(global);
    let t = clamped_volume(track);
    let lc = clamped_volume(louder_channel);
    let lg = clamped_volume(louder_global);
    let lt = clamped_volume(louder_track);
    assert(0 <= c * g <= lc * lg <= 1_000_000) by (nonlinear_arith)
        requires
            0 <= c <= lc <= 1000,
            0 <= g <= lg <= 1000,
    ;
    assert(0 <= (c * g) * t <= (lc * lg) * lt) by (nonlinear_arith)
        requires
            0 <= c * g <= lc * lg,
            0 <= t <= lt,
    ;
    assert((c * g) * t <= 1_000_000_000) by (nonlinear_arith)
        requires
            0 <= c * g <= 1_000_000,
            0 <= t <= 1000,
    ;
}

} // verus!
