use vstd::prelude::*;

use crate::accrual::{accrue, accrued, update_all_players_xp, xp_accrual_fits, xp_accrued};
use crate::constants::{MAX_TILES, PLAYER_STATUS_PLAYING};
use crate::error::HexoneError;
use crate::game::{
    find_player_slot, increment_tile_count, tier_gained, tile_gained, update_tier_count_on_gain, Game,
    GameModel, GameState, PlayerSlot, TileData,
};
use crate::grid::{adjacent, are_tiles_adjacent, get_tile_tier, tier_of};
use crate::identity::Identity;
use crate::state::Player;
use crate::winner::{after_winner_check, check_for_winner};

verus! {

/// What moving resources reads and writes: the caller's wallet and the game.
#[derive(Clone, Copy, Debug)]
pub struct MoveResources {
    pub wallet: Identity,
    pub game: Game,
}

/// Whether a move of `amount` resources from `src` to `dst` by the player of
/// colour `color` is allowed on `g`.
pub open spec fn move_allowed(g: GameModel, color: int, src: int, dst: int, amount: int) -> bool {
    &&& src < MAX_TILES
    &&& dst < MAX_TILES
    &&& src != dst
    &&& adjacent(src, dst, g.rows as int, g.columns as int)
    &&& g.tile_data[src].color == color
    &&& (g.tile_data[dst].color == 0 || g.tile_data[dst].color == color)
    &&& g.tile_data[src].resource_count >= 2
    &&& 1 <= amount <= g.tile_data[src].resource_count - 1
}

/// The game after a move, or why the move fails. The source keeps at least one
/// resource; experience is credited and the winner check runs before the
/// destination changes hands, and a newly claimed tile is counted for the
/// mover's colour and tier.
pub open spec fn move_outcome(
    g: GameModel,
    wallet: Identity,
    now: int,
    src: int,
    dst: int,
    amount: int,
) -> Result<GameModel, HexoneError> {
    let color = g.slot_of(wallet) + 1;
    if g.game_state != GameState::InProgress {
        Err(HexoneError::Invalid)
    } else if g.slot_of(wallet) < 0 {
        Err(HexoneError::PlayerNotAuthorized)
    } else if !move_allowed(g, color, src, dst, amount) {
        Err(HexoneError::Invalid)
    } else if !xp_accrual_fits(g, now) {
        Err(HexoneError::Invalid)
    } else {
        let s = g.tile_data[src];
        let g1 = xp_accrued(
            g.with_tile(src, TileData { resource_count: (s.resource_count - amount) as u16, ..s }),
            now,
        );
        match after_winner_check(g1, now) {
            None => Err(HexoneError::Invalid),
            Some(g2) => {
                let d = g2.tile_data[dst];
                if d.resource_count + amount > u16::MAX {
                    Err(HexoneError::Invalid)
                } else {
                    let g3 = g2.with_tile(
                        dst,
                        TileData { color: color as u8, resource_count: (d.resource_count + amount) as u16 },
                    );
                    if g.tile_data[dst].color != 0 {
                        Ok(g3)
                    } else {
                        match tile_gained(g3, color) {
                            None => Err(HexoneError::Invalid),
                            Some(g4) => match tier_gained(g4, color, tier_of(dst, g.columns as int)) {
                                None => Err(HexoneError::Invalid),
                                Some(g5) => Ok(g5),
                            },
                        }
                    }
                }
            },
        }
    }
}

/// Moves resources from one of the caller's tiles to an adjacent tile that is
/// unclaimed or already theirs, claiming it if it was unclaimed. The source
/// tile must keep at least one resource.
pub fn move_resources(
    ctx: &mut MoveResources,
    current_time: i64,
    source_tile_index: u16,
    destination_tile_index: u16,
    resources_to_move: u16,
) -> (r: Result<(), HexoneError>)
    ensures
        final(ctx).wallet == old(ctx).wallet,
        match move_outcome(
            old(ctx).game@,
            old(ctx).wallet,
            current_time as int,
            source_tile_index as int,
            destination_tile_index as int,
            resources_to_move as int,
        ) {
            Ok(g) => r == Ok::<(), HexoneError>(()) && final(ctx).game@ == g,
            Err(e) => r == Err::<(), HexoneError>(e) && final(ctx).game@ == old(ctx).game@,
        },
        r is Ok ==> final(ctx).game@.tile_data[source_tile_index as int].resource_count >= 1,
{
    if ctx.game.game_state != GameState::InProgress {
        return Err(HexoneError::Invalid);
    }
    let slot = match find_player_slot(&ctx.game, &ctx.wallet) {
        Some(i) => i,
        None => {
            return Err(HexoneError::PlayerNotAuthorized);
        },
    };
    let color = (slot + 1) as u8;
    if source_tile_index as usize >= MAX_TILES || destination_tile_index as usize >= MAX_TILES {
        return Err(HexoneError::Invalid);
    }
    if source_tile_index == destination_tile_index {
        return Err(HexoneError::Invalid);
    }
    let rows = ctx.game.rows;
    let columns = ctx.game.columns;
    if !are_tiles_adjacent(source_tile_index, destination_tile_index, rows, columns) {
        return Err(HexoneError::Invalid);
    }
    let src = source_tile_index as usize;
    let dst = destination_tile_index as usize;
    let source = ctx.game.tile_data[src];
    let dest_color = ctx.game.tile_data[dst].color;
    if source.color != color {
        return Err(HexoneError::Invalid);
    }
    if dest_color != 0 && dest_color != color {
        return Err(HexoneError::Invalid);
    }
    if source.resource_count < 2 {
        return Err(HexoneError::Invalid);
    }
    if resources_to_move < 1 || resources_to_move > source.resource_count - 1 {
        return Err(HexoneError::Invalid);
    }
    let ghost g0 = ctx.game@;
    let mut game = ctx.game;
    game.tile_data[src] = TileData { resource_count: source.resource_count - resources_to_move, ..source };
    assert(game@ =~= g0.with_tile(
        src as int,
        TileData { resource_count: (source.resource_count - resources_to_move) as u16, ..source },
    ));
    let was_empty = dest_color == 0;
    update_all_players_xp(&mut game, current_time)?;
    check_for_winner(&mut game, current_time)?;
    let dest = game.tile_data[dst];
    if dest.resource_count as u32 + resources_to_move as u32 > u16::MAX as u32 {
        return Err(HexoneError::Invalid);
    }
    let ghost g2 = game@;
    game.tile_data[dst] = TileData { color, resource_count: dest.resource_count + resources_to_move };
    assert(game@ =~= g2.with_tile(
        dst as int,
        TileData { color, resource_count: (dest.resource_count + resources_to_move) as u16 },
    ));
    assert(game@.tile_data[src as int].resource_count >= 1);
    if was_empty {
        increment_tile_count(&mut game, color)?;
        let tier = get_tile_tier(destination_tile_index, rows, columns);
        update_tier_count_on_gain(&mut game, slot + 1, tier)?;
    }
    ctx.game = game;
    Ok(())
}

/// What adding resources reads and writes: the caller's wallet and profile,
/// and the game.
#[derive(Clone, Copy, Debug)]
pub struct AddResources {
    pub wallet: Identity,
    pub player: Player,
    pub game: Game,
}

/// Whether the caller may spend onto `tile` at all: their profile is theirs
/// and playing, the game is in progress, they hold a slot and own the tile.
pub open spec fn add_checks_pass(g: GameModel, player: Player, wallet: Identity, tile: int) -> bool {
    &&& player.wallet == wallet
    &&& player.player_status == PLAYER_STATUS_PLAYING
    &&& g.game_state == GameState::InProgress
    &&& g.slot_of(wallet) >= 0
    &&& tile < MAX_TILES
    &&& g.tile_data[tile].color == g.slot_of(wallet) + 1
}

/// The game after the caller spends `amount` from the shared pool onto one of
/// their tiles, or why that fails. The pool grows first; the caller's total
/// spend may not pass it.
pub open spec fn add_outcome(
    g: GameModel,
    player: Player,
    wallet: Identity,
    now: int,
    tile: int,
    amount: int,
) -> Result<GameModel, HexoneError> {
    let i = g.slot_of(wallet);
    if player.wallet != wallet || player.player_status != PLAYER_STATUS_PLAYING {
        Err(HexoneError::PlayerNotAuthorized)
    } else if g.game_state != GameState::InProgress {
        Err(HexoneError::Invalid)
    } else if i < 0 {
        Err(HexoneError::PlayerNotAuthorized)
    } else if tile >= MAX_TILES || g.tile_data[tile].color != i + 1 {
        Err(HexoneError::Invalid)
    } else if !xp_accrual_fits(g, now) {
        Err(HexoneError::Invalid)
    } else {
        let g1 = accrued(g, now);
        let s = g1.players[i];
        let t = g1.tile_data[tile];
        let spent = s.resources_spent + amount;
        if spent > g1.total_resources_available {
            Err(HexoneError::Invalid)
        } else if t.resource_count + amount > u16::MAX {
            Err(HexoneError::Invalid)
        } else {
            Ok(
                g1.with_slot(i, PlayerSlot { resources_spent: spent as u32, ..s }).with_tile(
                    tile,
                    TileData { resource_count: (t.resource_count + amount) as u16, ..t },
                ),
            )
        }
    }
}

/// Spends `resources_to_add` from the shared pool onto one of the caller's
/// tiles. The pool is shared: each player may spend up to its current size in
/// total, and spends are counted per player.
pub fn add_resources(ctx: &mut AddResources, current_time: i64, tile_index: u16, resources_to_add: u32) -> (r:
    Result<(), HexoneError>)
    ensures
        final(ctx).wallet == old(ctx).wallet,
        final(ctx).player == old(ctx).player,
        match add_outcome(
            old(ctx).game@,
            old(ctx).player,
            old(ctx).wallet,
            current_time as int,
            tile_index as int,
            resources_to_add as int,
        ) {
            Ok(g) => r == Ok::<(), HexoneError>(()) && final(ctx).game@ == g,
            Err(e) => r == Err::<(), HexoneError>(e) && final(ctx).game@ == old(ctx).game@,
        },
        add_checks_pass(old(ctx).game@, old(ctx).player, old(ctx).wallet, tile_index as int)
            && old(ctx).game@.players[old(ctx).game@.slot_of(old(ctx).wallet)].resources_spent
            + resources_to_add > accrued(old(ctx).game@, current_time as int).total_resources_available
            ==> r == Err::<(), HexoneError>(HexoneError::Invalid) && final(ctx).game@ == old(ctx).game@,
        r is Ok ==> {
            let i = old(ctx).game@.slot_of(old(ctx).wallet);
            &&& final(ctx).game@.total_resources_available >= old(ctx).game@.total_resources_available
            &&& final(ctx).game@.players[i].resources_spent >= old(ctx).game@.players[i].resources_spent
            &&& final(ctx).game@.players[i].resources_spent <= final(ctx).game@.total_resources_available
        },
{
    if !ctx.player.wallet.same_as(&ctx.wallet) || ctx.player.player_status != PLAYER_STATUS_PLAYING {
        return Err(HexoneError::PlayerNotAuthorized);
    }
    if ctx.game.game_state != GameState::InProgress {
        return Err(HexoneError::Invalid);
    }
    let slot = match find_player_slot(&ctx.game, &ctx.wallet) {
        Some(i) => i,
        None => {
            return Err(HexoneError::PlayerNotAuthorized);
        },
    };
    if tile_index as usize >= MAX_TILES {
        return Err(HexoneError::Invalid);
    }
    let t = tile_index as usize;
    if ctx.game.tile_data[t].color != (slot + 1) as u8 {
        return Err(HexoneError::Invalid);
    }
    let mut game = ctx.game;
    accrue(&mut game, current_time)?;
    let player_slot = game.players[slot];
    let spent = player_slot.resources_spent as u64 + resources_to_add as u64;
    if spent > game.total_resources_available as u64 {
        return Err(HexoneError::Invalid);
    }
    let tile = game.tile_data[t];
    if tile.resource_count as u64 + resources_to_add as u64 > u16::MAX as u64 {
        return Err(HexoneError::Invalid);
    }
    let ghost g1 = game@;
    game.players[slot] = PlayerSlot { resources_spent: spent as u32, ..player_slot };
    game.tile_data[t] = TileData { resource_count: tile.resource_count + resources_to_add as u16, ..tile };
    assert(game@ =~= g1.with_slot(slot as int, PlayerSlot { resources_spent: spent as u32, ..player_slot }).with_tile(
        t as int,
        TileData { resource_count: (tile.resource_count + resources_to_add) as u16, ..tile },
    ));
    ctx.game = game;
    Ok(())
}

} // verus!
