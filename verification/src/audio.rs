//! Which sound a gameplay moment calls for.

use vstd::prelude::*;

verus! {

/// The sounds of the game.
#[derive(Copy, Clone, PartialEq, Eq, Structural, Debug, Hash)]
pub enum AudioAssetId {
    MusicBackground,
    SfxBallBounce0,
    SfxBallBounce1,
    SfxBallWallHit0,
    SfxBallWallHit1,
    SfxBrickBreak0,
    SfxBrickBreak1,
    SfxBallDeath0,
}

/// A moment of gameplay that is heard.
#[derive(Copy, Clone, PartialEq, Eq, Structural, Debug)]
pub enum SoundCue {
    /// A ball bounced off the paddle.
    BallPaddle,
    /// A ball bounced off a wall or a brick.
    BallWall,
    /// A brick broke.
    BrickBreak,
    /// A ball was lost.
    BallDeath,
}

/// The clip for a cue. Where a cue has two clips the caller's coin picks
/// one: the first when `first` is set, the second otherwise.
pub open spec fn spec_clip(cue: SoundCue, first: bool) -> AudioAssetId {
    match cue {
        SoundCue::BallPaddle => if first {
            AudioAssetId::SfxBallBounce0
        } else {
            AudioAssetId::SfxBallBounce1
        },
        SoundCue::BallWall => if first {
            AudioAssetId::SfxBallWallHit0
        } else {
            AudioAssetId::SfxBallWallHit1
        },
        SoundCue::BrickBreak => if first {
            AudioAssetId::SfxBrickBreak0
        } else {
            AudioAssetId::SfxBrickBreak1
        },
        SoundCue::BallDeath => AudioAssetId::SfxBallDeath0,
    }
}

/// Computes [`spec_clip`].
pub fn clip(cue: SoundCue, first: bool) -> (id: AudioAssetId)
    ensures
        id == spec_clip(cue, first),
{
    match cue {
        SoundCue::BallPaddle => if first {
            AudioAssetId::SfxBallBounce0
        } else {
            AudioAssetId::SfxBallBounce1
        },
        SoundCue::BallWall => if first {
            AudioAssetId::SfxBallWallHit0
        } else {
            AudioAssetId::SfxBallWallHit1
        },
        SoundCue::BrickBreak => if first {
            AudioAssetId::SfxBrickBreak0
        } else {
            AudioAssetId::SfxBrickBreak1
        },
        SoundCue::BallDeath => AudioAssetId::SfxBallDeath0,
    }
}

} // verus!
