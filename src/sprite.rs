//! Kinds of billboard sprites, and the frame shown for the kart that a
//! camera follows.
use vstd::prelude::*;

verus! {

/// What a sprite shows; selects its texture and how it is drawn.
#[derive(Clone, Copy, Debug, PartialEq, Eq, Hash, Structural)]
pub enum SpriteType {
    Kart1,
    Kart2,
    Checkpoint1,
    Checkpoint2,
    Banana,
    Enemy,
    Fireball,
    Powerup,
}

/// Which way a kart is steering.
#[derive(Clone, Copy, Debug, PartialEq, Eq, Structural)]
pub enum Turn {
    Left,
    Right,
    Straight,
}

/// Width and height in pixels of one frame of a sprite sheet.
pub const FRAME_SIZE: i32 = 32;

/// The frame of the kart that the camera follows. The camera turns with
/// that kart, so its frame shows where it steers rather than where it
/// faces: the second-to-last frame turning left, frame 1 turning right,
/// frame 0 going straight.
pub fn kart_rotation_frame(turn: Turn, frame_count: i32) -> (r: i32)
    requires
        frame_count >= 2,
    ensures
        r == match turn {
            Turn::Left => frame_count - 2,
            Turn::Right => 1,
            Turn::Straight => 0,
        },
        0 <= r < frame_count,
{
    match turn {
        Turn::Left => frame_count - 2,
        Turn::Right => 1,
        Turn::Straight => 0,
    }
}

/// Left edge, in pixels, of frame `frame` in a sprite sheet that lays its
/// frames side by side.
pub fn frame_offset(frame: i32) -> (r: i32)
    requires
        0 <= frame <= i32::MAX / FRAME_SIZE,
    ensures
        r == frame * FRAME_SIZE,
{
    frame * FRAME_SIZE
}

} // verus!
