//! Verified core of a four-player territory-control game on a hexagonal grid:
//! tile ownership, time-based resource and experience accrual, the two-phase
//! attack protocol and the winner latch.

pub mod constants;
pub mod error;
pub mod identity;
pub mod grid;
pub mod game;
pub mod accrual;
pub mod winner;
pub mod rolls;
pub mod state;
pub mod events;
pub mod combat;
pub mod economy;
pub mod prize;
pub mod lobby;

pub use accrual::{
    accrue, calculate_new_resources, calculate_new_xp, update_all_players_xp,
    update_available_resources, whole_minutes,
};
pub use combat::{attack_tile, resolve_attack, resolve_attack_with_rolls, AttackTile, ResolveAttack};
pub use economy::{add_resources, move_resources, AddResources, MoveResources};
pub use error::HexoneError;
pub use events::{AttackResolved, GameStarted};
pub use game::{
    calculate_tier_bonus_xp, update_tier_count_on_gain, update_tier_count_on_loss, Game, GameState,
    PlayerSlot, TierCounts, TileData,
};
pub use grid::{are_tiles_adjacent, get_tile_tier};
pub use identity::Identity;
pub use lobby::{
    create_game, create_platform, create_player, join_game, CreateGame, CreatePlatform, CreatePlayer,
    JoinGame,
};
pub use prize::{claim_prize, ClaimPrize};
pub use rolls::{blockhash_to_u64, draw_rolls, get_simulated_blockhash, roll};
pub use state::{Defender, Platform, Player};
pub use winner::check_for_winner;
