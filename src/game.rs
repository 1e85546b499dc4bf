use vstd::prelude::*;

use crate::constants::{MAX_PLAYERS, MAX_TILES};
use crate::error::HexoneError;
use crate::identity::Identity;

verus! {

/// One board cell: its owner (0 unclaimed, 1-4 a player colour) and the
/// resources stacked on it.
#[derive(Clone, Copy, Debug, PartialEq, Eq, Structural)]
pub struct TileData {
    pub color: u8,
    pub resource_count: u16,
}

/// One value per tile tier: used both for per-player tile counts and for the
/// bonus experience each tier yields per minute.
#[derive(Clone, Copy, Debug, PartialEq, Eq, Structural)]
pub struct TierCounts {
    pub gold: u8,
    pub silver: u8,
    pub bronze: u8,
    pub iron: u8,
}

impl TierCounts {
    /// The value of tier `tier` (0 gold, 1 silver, 2 bronze, 3 iron).
    pub open spec fn get(self, tier: int) -> u8 {
        if tier == 0 {
            self.gold
        } else if tier == 1 {
            self.silver
        } else if tier == 2 {
            self.bronze
        } else {
            self.iron
        }
    }

    /// The counts with tier `tier` set to `v`.
    pub open spec fn with(self, tier: int, v: u8) -> TierCounts {
        if tier == 0 {
            TierCounts { gold: v, ..self }
        } else if tier == 1 {
            TierCounts { silver: v, ..self }
        } else if tier == 2 {
            TierCounts { bronze: v, ..self }
        } else {
            TierCounts { iron: v, ..self }
        }
    }

    pub fn zero() -> (r: TierCounts)
        ensures
            r.gold == 0 && r.silver == 0 && r.bronze == 0 && r.iron == 0,
    {
        TierCounts { gold: 0, silver: 0, bronze: 0, iron: 0 }
    }
}

/// Life cycle of a game.
#[derive(Clone, Copy, Debug, PartialEq, Eq, Structural)]
pub enum GameState {
    Waiting,
    InProgress,
    Completed,
    WinnerFoundNotPaidOut,
}

/// Everything a game keeps about one participant. Slot `i` plays colour `i + 1`.
#[derive(Clone, Copy, Debug)]
pub struct PlayerSlot {
    /// The participant's wallet; all zero while the slot is open.
    pub key: Identity,
    /// Resources taken from the shared pool so far.
    pub resources_spent: u32,
    pub xp: u32,
    /// Time up to which experience has been credited.
    pub xp_timestamp: i64,
    /// Tiles owned by this player's colour.
    pub tile_count: u32,
    /// Owned tiles per tier.
    pub tiers: TierCounts,
}

/// The shared state of one match.
#[derive(Clone, Copy, Debug)]
pub struct Game {
    pub admin: Identity,
    pub players: [PlayerSlot; MAX_PLAYERS],
    pub game_id: u64,
    /// Time up to which the shared resource pool has grown.
    pub available_resources_timestamp: i64,
    pub resources_per_minute: u32,
    /// The shared pool: every player may spend up to this amount in total.
    pub total_resources_available: u32,
    pub xp_per_minute_per_tile: u32,
    pub tile_data: [TileData; MAX_TILES],
    pub tier_bonus_xp_per_min: TierCounts,
    pub winning_player_pubkey: Identity,
    pub winning_xp_limit: u64,
    pub game_state: GameState,
    pub rows: u8,
    pub columns: u8,
    pub version: u8,
    pub bump: u8,
    /// Set once, when the winner election has run.
    pub winner_calculation_flag: u8,
}

/// The mathematical view of a [`Game`]: its arrays as sequences.
#[verifier::ext_equal]
pub struct GameModel {
    pub admin: Identity,
    pub players: Seq<PlayerSlot>,
    pub game_id: u64,
    pub available_resources_timestamp: i64,
    pub resources_per_minute: u32,
    pub total_resources_available: u32,
    pub xp_per_minute_per_tile: u32,
    pub tile_data: Seq<TileData>,
    pub tier_bonus_xp_per_min: TierCounts,
    pub winning_player_pubkey: Identity,
    pub winning_xp_limit: u64,
    pub game_state: GameState,
    pub rows: u8,
    pub columns: u8,
    pub version: u8,
    pub bump: u8,
    pub winner_calculation_flag: u8,
}

impl View for Game {
    type V = GameModel;

    open spec fn view(&self) -> GameModel {
        GameModel {
            admin: self.admin,
            players: self.players@,
            game_id: self.game_id,
            available_resources_timestamp: self.available_resources_timestamp,
            resources_per_minute: self.resources_per_minute,
            total_resources_available: self.total_resources_available,
            xp_per_minute_per_tile: self.xp_per_minute_per_tile,
            tile_data: self.tile_data@,
            tier_bonus_xp_per_min: self.tier_bonus_xp_per_min,
            winning_player_pubkey: self.winning_player_pubkey,
            winning_xp_limit: self.winning_xp_limit,
            game_state: self.game_state,
            rows: self.rows,
            columns: self.columns,
            version: self.version,
            bump: self.bump,
            winner_calculation_flag: self.winner_calculation_flag,
        }
    }
}

pub open spec fn occupied(slot: PlayerSlot) -> bool {
    !slot.key.is_unset_spec()
}

impl GameModel {
    pub open spec fn with_slot(self, i: int, slot: PlayerSlot) -> GameModel {
        GameModel { players: self.players.update(i, slot), ..self }
    }

    pub open spec fn with_tile(self, i: int, tile: TileData) -> GameModel {
        GameModel { tile_data: self.tile_data.update(i, tile), ..self }
    }

    /// The slot index of the participant with wallet `key`, if any (first match).
    pub open spec fn slot_of(self, key: Identity) -> int {
        if self.players[0].key == key {
            0
        } else if self.players[1].key == key {
            1
        } else if self.players[2].key == key {
            2
        } else if self.players[3].key == key {
            3
        } else {
            -1
        }
    }
}

/// The game with one more tile of tier `tier` counted for player
/// `player_index` (1-4); unranked tiles (tier 4) leave it unchanged. `None`
/// for an unknown player or tier, or when the count would overflow.
pub open spec fn tier_gained(g: GameModel, player_index: int, tier: int) -> Option<GameModel> {
    if tier == 4 {
        Some(g)
    } else if player_index < 1 || player_index > 4 || tier < 0 || tier > 4 {
        None
    } else {
        let slot = g.players[player_index - 1];
        let c = slot.tiers.get(tier);
        if c < 255 {
            Some(g.with_slot(player_index - 1, PlayerSlot { tiers: slot.tiers.with(tier, (c + 1) as u8), ..slot }))
        } else {
            None
        }
    }
}

/// The game with one tile of tier `tier` fewer counted for player
/// `player_index` (1-4); unranked tiles (tier 4) leave it unchanged. `None`
/// for an unknown player or tier, or when the count is already zero.
pub open spec fn tier_lost(g: GameModel, player_index: int, tier: int) -> Option<GameModel> {
    if tier == 4 {
        Some(g)
    } else if player_index < 1 || player_index > 4 || tier < 0 || tier > 4 {
        None
    } else {
        let slot = g.players[player_index - 1];
        let c = slot.tiers.get(tier);
        if c > 0 {
            Some(g.with_slot(player_index - 1, PlayerSlot { tiers: slot.tiers.with(tier, (c - 1) as u8), ..slot }))
        } else {
            None
        }
    }
}

/// The game with one more tile counted for colour `color` (1-4); `None` for
/// an unknown colour or on overflow.
pub open spec fn tile_gained(g: GameModel, color: int) -> Option<GameModel> {
    if color < 1 || color > 4 {
        None
    } else {
        let slot = g.players[color - 1];
        if slot.tile_count < u32::MAX {
            Some(g.with_slot(color - 1, PlayerSlot { tile_count: (slot.tile_count + 1) as u32, ..slot }))
        } else {
            None
        }
    }
}

/// The game with one tile fewer counted for colour `color` (1-4); `None` for
/// an unknown colour or when the count is already zero.
pub open spec fn tile_lost(g: GameModel, color: int) -> Option<GameModel> {
    if color < 1 || color > 4 {
        None
    } else {
        let slot = g.players[color - 1];
        if slot.tile_count > 0 {
            Some(g.with_slot(color - 1, PlayerSlot { tile_count: (slot.tile_count - 1) as u32, ..slot }))
        } else {
            None
        }
    }
}

/// The slot of the participant with wallet `wallet`, if any.
pub fn find_player_slot(game: &Game, wallet: &Identity) -> (r: Option<usize>)
    ensures
        game@.slot_of(*wallet) >= 0 ==> r == Some(game@.slot_of(*wallet) as usize),
        game@.slot_of(*wallet) < 0 ==> r is None,
{
    if game.players[0].key.same_as(wallet) {
        Some(0)
    } else if game.players[1].key.same_as(wallet) {
        Some(1)
    } else if game.players[2].key.same_as(wallet) {
        Some(2)
    } else if game.players[3].key.same_as(wallet) {
        Some(3)
    } else {
        None
    }
}

/// Add one tile to the count of colour `color` (1-4).
pub fn increment_tile_count(game: &mut Game, color: u8) -> (r: Result<(), HexoneError>)
    ensures
        tile_gained(old(game)@, color as int) is Some ==> r == Ok::<(), HexoneError>(())
            && final(game)@ == tile_gained(old(game)@, color as int)->Some_0,
        tile_gained(old(game)@, color as int) is None ==> r == Err::<(), HexoneError>(
            HexoneError::Invalid,
        ) && final(game)@ == old(game)@,
{
    if color < 1 || color > 4 {
        return Err(HexoneError::Invalid);
    }
    let idx = (color - 1) as usize;
    let mut slot = game.players[idx];
    if slot.tile_count == u32::MAX {
        return Err(HexoneError::Invalid);
    }
    slot.tile_count = slot.tile_count + 1;
    game.players[idx] = slot;
    assert(game@ =~= old(game)@.with_slot(idx as int, slot));
    Ok(())
}

/// Remove one tile from the count of colour `color` (1-4).
pub fn decrement_tile_count(game: &mut Game, color: u8) -> (r: Result<(), HexoneError>)
    ensures
        tile_lost(old(game)@, color as int) is Some ==> r == Ok::<(), HexoneError>(())
            && final(game)@ == tile_lost(old(game)@, color as int)->Some_0,
        tile_lost(old(game)@, color as int) is None ==> r == Err::<(), HexoneError>(
            HexoneError::Invalid,
        ) && final(game)@ == old(game)@,
{
    if color < 1 || color > 4 {
        return Err(HexoneError::Invalid);
    }
    let idx = (color - 1) as usize;
    let mut slot = game.players[idx];
    if slot.tile_count == 0 {
        return Err(HexoneError::Invalid);
    }
    slot.tile_count = slot.tile_count - 1;
    game.players[idx] = slot;
    assert(game@ =~= old(game)@.with_slot(idx as int, slot));
    Ok(())
}

/// Add one owned tile of tier `tier` to player `player_index` (1-4).
/// Unranked tiles (tier 4) are not tracked.
pub fn update_tier_count_on_gain(game: &mut Game, player_index: usize, tier: u8) -> (r: Result<
    (),
    HexoneError,
>)
    ensures
        tier_gained(old(game)@, player_index as int, tier as int) is Some ==> r == Ok::<(), HexoneError>(())
            && final(game)@ == tier_gained(old(game)@, player_index as int, tier as int)->Some_0,
        tier_gained(old(game)@, player_index as int, tier as int) is None ==> r == Err::<(), HexoneError>(
            HexoneError::Invalid,
        ) && final(game)@ == old(game)@,
{
    if tier == 4 {
        return Ok(());
    }
    if player_index < 1 || player_index > 4 || tier > 4 {
        return Err(HexoneError::Invalid);
    }
    let idx = player_index - 1;
    let mut slot = game.players[idx];
    let mut tiers = slot.tiers;
    if tier == 0 {
        if tiers.gold == 255 {
            return Err(HexoneError::Invalid);
        }
        tiers.gold = tiers.gold + 1;
    } else if tier == 1 {
        if tiers.silver == 255 {
            return Err(HexoneError::Invalid);
        }
        tiers.silver = tiers.silver + 1;
    } else if tier == 2 {
        if tiers.bronze == 255 {
            return Err(HexoneError::Invalid);
        }
        tiers.bronze = tiers.bronze + 1;
    } else {
        if tiers.iron == 255 {
            return Err(HexoneError::Invalid);
        }
        tiers.iron = tiers.iron + 1;
    }
    slot.tiers = tiers;
    game.players[idx] = slot;
    assert(game@ =~= old(game)@.with_slot(idx as int, slot));
    Ok(())
}

/// Remove one owned tile of tier `tier` from player `player_index` (1-4).
/// Unranked tiles (tier 4) are not tracked.
pub fn update_tier_count_on_loss(game: &mut Game, player_index: usize, tier: u8) -> (r: Result<
    (),
    HexoneError,
>)
    ensures
        tier_lost(old(game)@, player_index as int, tier as int) is Some ==> r == Ok::<(), HexoneError>(())
            && final(game)@ == tier_lost(old(game)@, player_index as int, tier as int)->Some_0,
        tier_lost(old(game)@, player_index as int, tier as int) is None ==> r == Err::<(), HexoneError>(
            HexoneError::Invalid,
        ) && final(game)@ == old(game)@,
{
    if tier == 4 {
        return Ok(());
    }
    if player_index < 1 || player_index > 4 || tier > 4 {
        return Err(HexoneError::Invalid);
    }
    let idx = player_index - 1;
    let mut slot = game.players[idx];
    let mut tiers = slot.tiers;
    if tier == 0 {
        if tiers.gold == 0 {
            return Err(HexoneError::Invalid);
        }
        tiers.gold = tiers.gold - 1;
    } else if tier == 1 {
        if tiers.silver == 0 {
            return Err(HexoneError::Invalid);
        }
        tiers.silver = tiers.silver - 1;
    } else if tier == 2 {
        if tiers.bronze == 0 {
            return Err(HexoneError::Invalid);
        }
        tiers.bronze = tiers.bronze - 1;
    } else {
        if tiers.iron == 0 {
            return Err(HexoneError::Invalid);
        }
        tiers.iron = tiers.iron - 1;
    }
    slot.tiers = tiers;
    game.players[idx] = slot;
    assert(game@ =~= old(game)@.with_slot(idx as int, slot));
    Ok(())
}

/// Bonus experience per minute that a player's tier tiles yield.
pub open spec fn tier_bonus_rate(tiers: TierCounts, bonus: TierCounts) -> int {
    tiers.gold * bonus.gold + tiers.silver * bonus.silver + tiers.bronze * bonus.bronze + tiers.iron
        * bonus.iron
}

pub proof fn lemma_tier_bonus_rate_bound(tiers: TierCounts, bonus: TierCounts)
    ensures
        0 <= tier_bonus_rate(tiers, bonus) <= 4 * 255 * 255,
{
    assert(0 <= tiers.gold * bonus.gold <= 255 * 255) by (nonlinear_arith)
        requires
            tiers.gold <= 255,
            bonus.gold <= 255,
    ;
    assert(0 <= tiers.silver * bonus.silver <= 255 * 255) by (nonlinear_arith)
        requires
            tiers.silver <= 255,
            bonus.silver <= 255,
    ;
    assert(0 <= tiers.bronze * bonus.bronze <= 255 * 255) by (nonlinear_arith)
        requires
            tiers.bronze <= 255,
            bonus.bronze <= 255,
    ;
    assert(0 <= tiers.iron * bonus.iron <= 255 * 255) by (nonlinear_arith)
        requires
            tiers.iron <= 255,
            bonus.iron <= 255,
    ;
}

/// Tier bonus experience earned over `minutes_elapsed` minutes:
/// `minutes * (gold_count * gold_xp + silver_count * silver_xp + bronze_count * bronze_xp + iron_count * iron_xp)`,
/// failing when it does not fit in a `u32`.
pub fn calculate_tier_bonus_xp(
    minutes_elapsed: u32,
    gold_count: u8,
    silver_count: u8,
    bronze_count: u8,
    iron_count: u8,
    gold_xp_per_min: u8,
    silver_xp_per_min: u8,
    bronze_xp_per_min: u8,
    iron_xp_per_min: u8,
) -> (r: Result<u32, HexoneError>)
    ensures
        ({
            let total = minutes_elapsed * tier_bonus_rate(
                TierCounts { gold: gold_count, silver: silver_count, bronze: bronze_count, iron: iron_count },
                TierCounts {
                    gold: gold_xp_per_min,
                    silver: silver_xp_per_min,
                    bronze: bronze_xp_per_min,
                    iron: iron_xp_per_min,
                },
            );
            if total <= u32::MAX {
                r == Ok::<u32, HexoneError>(total as u32)
            } else {
                r == Err::<u32, HexoneError>(HexoneError::Invalid)
            }
        }),
{
    let tiers = TierCounts { gold: gold_count, silver: silver_count, bronze: bronze_count, iron: iron_count };
    let bonus = TierCounts {
        gold: gold_xp_per_min,
        silver: silver_xp_per_min,
        bronze: bronze_xp_per_min,
        iron: iron_xp_per_min,
    };
    proof {
        lemma_tier_bonus_rate_bound(tiers, bonus);
    }
    let gold_xp = gold_count as u32 * gold_xp_per_min as u32;
    let silver_xp = silver_count as u32 * silver_xp_per_min as u32;
    let bronze_xp = bronze_count as u32 * bronze_xp_per_min as u32;
    let iron_xp = iron_count as u32 * iron_xp_per_min as u32;
    let total_xp_per_min = gold_xp + silver_xp + bronze_xp + iron_xp;
    match total_xp_per_min.checked_mul(minutes_elapsed) {
        Some(total) => {
            assert(total == minutes_elapsed * total_xp_per_min) by (nonlinear_arith)
                requires
                    total == total_xp_per_min * minutes_elapsed,
            ;
            Ok(total)
        },
        None => {
            assert(minutes_elapsed * total_xp_per_min > u32::MAX) by (nonlinear_arith)
                requires
                    total_xp_per_min * minutes_elapsed > u32::MAX,
            ;
            Err(HexoneError::Invalid)
        },
    }
}

} // verus!
