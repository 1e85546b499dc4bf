use vstd::prelude::*;

use crate::identity::Identity;

verus! {

/// An open attack commitment: one per (game, defender tile) at a time. The
/// tile indices and colours are captured when the attack opens.
///
/// Expiry policy: a commitment never expires. Nothing cancels or times it
/// out; once the minimum duration has passed anyone may resolve it, however
/// late, and until then no other attack can open on its defender tile.
/// Resolution is the only way it ends.
#[derive(Clone, Copy, Debug)]
pub struct Defender {
    pub game: Identity,
    pub defender_tile_index: u16,
    pub defender_tile_color: u8,
    pub attacker_tile_index: u16,
    pub attacker_tile_color: u8,
    pub attack_started_at: i64,
    pub is_attack_resolved: bool,
    pub attacker_won: bool,
    /// The attacker's roll, 0-999, once resolved.
    pub attacking_result: u16,
    /// The defender's roll, 0-999, once resolved.
    pub defending_result: u16,
    pub bump: u8,
}

/// A wallet's profile, which outlives any single game.
#[derive(Clone, Copy, Debug)]
pub struct Player {
    pub wallet: Identity,
    pub name: [u8; 32],
    pub games_played: u32,
    pub games_won: u32,
    pub last_game: Option<Identity>,
    pub created_at: i64,
    /// Ready (1) or playing (2).
    pub player_status: u8,
    pub version: u8,
    pub bump: u8,
}

/// The process-wide registry of games and players.
#[derive(Clone, Copy, Debug)]
pub struct Platform {
    pub admin: Identity,
    /// Number of games created so far; the next game takes this as its id.
    pub game_count: u64,
    pub games_completed: u64,
    pub total_players: u64,
    /// Entry cost of a game, in lamports.
    pub game_cost: u64,
    pub version: u8,
    pub bump: u8,
}

} // verus!
