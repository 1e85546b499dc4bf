use vstd::prelude::*;

verus! {

/// Number of tiles a game board can hold.
pub const MAX_TILES: usize = 144;

/// Number of player slots in a game.
pub const MAX_PLAYERS: usize = 4;

/// Board dimensions used by newly created games.
pub const DEFAULT_ROWS: u8 = 11;
pub const DEFAULT_COLUMNS: u8 = 13;

/// Resources placed on each player's starting tile.
pub const STARTING_TILE_RESOURCES: u16 = 100;

/// A customary entry cost for a platform, in lamports (0.1 SOL).
pub const DEFAULT_GAME_COST: u64 = 100_000_000;

/// Growth of the shared resource pool per whole minute.
pub const RESOURCES_PER_MINUTE: u32 = 10;

/// Experience per whole minute for each owned tile.
pub const XP_PER_MINUTE_PER_TILE: u32 = 1;

/// Experience threshold that triggers the winner election.
pub const DEFAULT_WINNING_XP_LIMIT: u64 = 10_000;

/// Bonus experience per whole minute for each owned tile of a tier.
pub const GOLD_TIER_BONUS_XP_PER_MIN: u8 = 100;

pub const SILVER_TIER_BONUS_XP_PER_MIN: u8 = 50;

pub const BRONZE_TIER_BONUS_XP_PER_MIN: u8 = 10;

pub const IRON_TIER_BONUS_XP_PER_MIN: u8 = 5;

/// Seconds that must pass between opening and resolving an attack.
pub const MIN_ATTACK_DURATION: i64 = 3;

/// Exclusive upper bound of a combat roll.
pub const ROLL_RANGE: u64 = 1000;

/// Board cell from which tier rings are measured.
pub const CENTER_ROW: i64 = 5;
pub const CENTER_COL: i64 = 6;

/// Profile status: free to join a game.
pub const PLAYER_STATUS_READY: u8 = 1;

/// Profile status: seated in a game.
pub const PLAYER_STATUS_PLAYING: u8 = 2;

/// Layout version written into every new record.
pub const ACCOUNT_VERSION: u8 = 1;

} // verus!
