use vstd::prelude::*;

verus! {

/// Top speed of the player, in pixels per second.
pub const PLAYER_SPEED: u32 = 400;

/// Side of the player's square, in pixels.
pub const PLAYER_SIZE: u32 = 50;

/// Base speed of an enemy, in pixels per second, before it slows near the player.
pub const ENEMY_SPEED: u32 = 400;

/// Side of an enemy's square, in pixels; also the margin kept from the right
/// and bottom edges when an enemy is first placed.
pub const ENEMY_SIZE: u32 = 50;

} // verus!
