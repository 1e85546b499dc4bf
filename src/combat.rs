use vstd::prelude::*;

use crate::accrual::{update_all_players_xp, xp_accrual_fits, xp_accrued};
use crate::constants::{MAX_TILES, MIN_ATTACK_DURATION};
use crate::error::HexoneError;
use crate::events::AttackResolved;
use crate::game::{
    decrement_tile_count, find_player_slot, increment_tile_count, tier_gained, tier_lost, tile_gained,
    tile_lost, update_tier_count_on_gain, update_tier_count_on_loss, Game, GameModel, GameState,
    TileData,
};
use crate::grid::{adjacent, are_tiles_adjacent, get_tile_tier, tier_of};
use crate::identity::Identity;
use crate::rolls::{attacker_offsets, defender_offsets, draw_rolls, roll_value};
use crate::state::Defender;

verus! {

/// What opening an attack reads: the attacking wallet, the game, the game's
/// address, and the commitment already stored for the defender tile, if any.
#[derive(Clone, Copy, Debug)]
pub struct AttackTile {
    pub player_wallet: Identity,
    pub game: Game,
    pub game_key: Identity,
    /// The live commitment for the defender tile; its presence blocks a new one.
    pub defender: Option<Defender>,
    /// Bump of the new commitment's address.
    pub bump: u8,
}

/// The commitment opened by an attack, or why the attack is refused.
pub open spec fn attack_outcome(
    g: GameModel,
    wallet: Identity,
    game_key: Identity,
    existing: Option<Defender>,
    bump: u8,
    now: i64,
    attacker_tile_index: u16,
    defender_tile_index: u16,
) -> Result<Defender, HexoneError> {
    let a = attacker_tile_index as int;
    let d = defender_tile_index as int;
    let color = g.slot_of(wallet) + 1;
    if existing is Some {
        Err(HexoneError::Invalid)
    } else if g.game_state != GameState::InProgress {
        Err(HexoneError::Invalid)
    } else if g.slot_of(wallet) < 0 {
        Err(HexoneError::PlayerNotAuthorized)
    } else if a >= MAX_TILES || d >= MAX_TILES || a == d || !adjacent(
        a,
        d,
        g.rows as int,
        g.columns as int,
    ) || g.tile_data[a].color != color || g.tile_data[d].color == 0 || g.tile_data[d].color
        == color || g.tile_data[a].resource_count < 2 {
        Err(HexoneError::Invalid)
    } else {
        Ok(
            Defender {
                game: game_key,
                defender_tile_index,
                defender_tile_color: g.tile_data[d].color,
                attacker_tile_index,
                attacker_tile_color: color as u8,
                attack_started_at: now,
                is_attack_resolved: false,
                attacker_won: false,
                attacking_result: 0,
                defending_result: 0,
                bump,
            },
        )
    }
}

/// Opens an attack from the caller's tile on an adjacent tile of another
/// player. The attacking tile must hold at least two resources, and no
/// commitment may be live for the defender tile.
pub fn attack_tile(
    ctx: &AttackTile,
    current_time: i64,
    attacker_tile_index: u16,
    defender_tile_index: u16,
) -> (r: Result<Defender, HexoneError>)
    ensures
        r == attack_outcome(
            ctx.game@,
            ctx.player_wallet,
            ctx.game_key,
            ctx.defender,
            ctx.bump,
            current_time,
            attacker_tile_index,
            defender_tile_index,
        ),
{
    if ctx.defender.is_some() {
        return Err(HexoneError::Invalid);
    }
    let game = &ctx.game;
    if game.game_state != GameState::InProgress {
        return Err(HexoneError::Invalid);
    }
    let slot = match find_player_slot(game, &ctx.player_wallet) {
        Some(i) => i,
        None => {
            return Err(HexoneError::PlayerNotAuthorized);
        },
    };
    let attacker_color = (slot + 1) as u8;
    if attacker_tile_index as usize >= MAX_TILES || defender_tile_index as usize >= MAX_TILES {
        return Err(HexoneError::Invalid);
    }
    if attacker_tile_index == defender_tile_index {
        return Err(HexoneError::Invalid);
    }
    if !are_tiles_adjacent(attacker_tile_index, defender_tile_index, game.rows, game.columns) {
        return Err(HexoneError::Invalid);
    }
    let attacker_tile = game.tile_data[attacker_tile_index as usize];
    let defender_tile = game.tile_data[defender_tile_index as usize];
    if attacker_tile.color != attacker_color {
        return Err(HexoneError::Invalid);
    }
    if defender_tile.color == 0 || defender_tile.color == attacker_color {
        return Err(HexoneError::Invalid);
    }
    if attacker_tile.resource_count < 2 {
        return Err(HexoneError::Invalid);
    }
    Ok(
        Defender {
            game: ctx.game_key,
            defender_tile_index,
            defender_tile_color: defender_tile.color,
            attacker_tile_index,
            attacker_tile_color: attacker_color,
            attack_started_at: current_time,
            is_attack_resolved: false,
            attacker_won: false,
            attacking_result: 0,
            defending_result: 0,
            bump: ctx.bump,
        },
    )
}

/// At most one open commitment per defender tile: once an attack on a tile
/// has opened, any further attack on that tile fails while the commitment is
/// stored, whoever makes it and from wherever.
pub proof fn lemma_one_open_commitment_per_tile(
    g: GameModel,
    wallet: Identity,
    game_key: Identity,
    bump: u8,
    now: i64,
    attacker_tile_index: u16,
    defender_tile_index: u16,
    later_game: GameModel,
    later_wallet: Identity,
    later_bump: u8,
    later_now: i64,
    later_attacker_tile_index: u16,
)
    requires
        attack_outcome(g, wallet, game_key, None, bump, now, attacker_tile_index, defender_tile_index) is Ok,
    ensures
        ({
            let open = attack_outcome(
                g,
                wallet,
                game_key,
                None,
                bump,
                now,
                attacker_tile_index,
                defender_tile_index,
            )->Ok_0;
            &&& open.defender_tile_index == defender_tile_index
            &&& !open.is_attack_resolved
            &&& attack_outcome(
                later_game,
                later_wallet,
                game_key,
                Some(open),
                later_bump,
                later_now,
                later_attacker_tile_index,
                defender_tile_index,
            ) == Err::<Defender, HexoneError>(HexoneError::Invalid)
        }),
{
}

/// What resolving an attack reads and writes: the game, the commitment, and
/// the commitment's own address (which seeds the rolls).
#[derive(Clone, Copy, Debug)]
pub struct ResolveAttack {
    pub game: Game,
    pub defender: Defender,
    pub defender_key: Identity,
}

/// Whether a commitment can be resolved now: the game is in progress, the
/// commitment is still open, the minimum duration has elapsed, and its tiles
/// are two distinct cells of the board.
pub open spec fn resolvable(g: GameModel, d: Defender, now: int) -> bool {
    &&& g.game_state == GameState::InProgress
    &&& !d.is_attack_resolved
    &&& now - d.attack_started_at >= MIN_ATTACK_DURATION
    &&& d.attacker_tile_index < MAX_TILES
    &&& d.defender_tile_index < MAX_TILES
    &&& d.attacker_tile_index != d.defender_tile_index
    &&& g.columns > 0
}

/// A capture: the defender tile passes to the attacker's colour with one
/// resource, one resource leaves the attacker tile, and the tile and tier
/// counts of both colours follow. `None` when the attacker tile is empty or a
/// count would leave its range.
pub open spec fn captured(g: GameModel, d: Defender) -> Option<GameModel> {
    let a = d.attacker_tile_index as int;
    let t = d.defender_tile_index as int;
    let at = g.tile_data[a];
    let old_color = g.tile_data[t].color as int;
    let new_color = d.attacker_tile_color as int;
    let tier = tier_of(t, g.columns as int);
    let tracked_owner = 1 <= old_color <= 4;
    if at.resource_count < 1 {
        None
    } else {
        let g2 = g.with_tile(t, TileData { color: d.attacker_tile_color, resource_count: 1 }).with_tile(
            a,
            TileData { resource_count: (at.resource_count - 1) as u16, ..at },
        );
        let g3 = if tracked_owner {
            tile_lost(g2, old_color)
        } else {
            Some(g2)
        };
        match g3 {
            None => None,
            Some(g3) => match tile_gained(g3, new_color) {
                None => None,
                Some(g4) => {
                    let g5 = if tracked_owner {
                        tier_lost(g4, old_color, tier)
                    } else {
                        Some(g4)
                    };
                    match g5 {
                        None => None,
                        Some(g5) => tier_gained(g5, new_color, tier),
                    }
                },
            },
        }
    }
}

/// The board after the rolls are compared. The attacker wins only with a
/// strictly higher roll. A winning attacker takes one resource from the
/// defender tile, or captures it when it holds a single one; a losing attacker
/// loses one resource, never going below one.
pub open spec fn outcome_applied(g: GameModel, d: Defender, attacker_won: bool) -> Option<GameModel> {
    let a = d.attacker_tile_index as int;
    let t = d.defender_tile_index as int;
    let at = g.tile_data[a];
    let dt = g.tile_data[t];
    if attacker_won {
        if dt.resource_count > 1 {
            Some(g.with_tile(t, TileData { resource_count: (dt.resource_count - 1) as u16, ..dt }))
        } else {
            captured(g, d)
        }
    } else {
        Some(
            g.with_tile(
                a,
                TileData {
                    resource_count: if at.resource_count > 1 {
                        (at.resource_count - 1) as u16
                    } else {
                        1
                    },
                    ..at
                },
            ),
        )
    }
}

/// The commitment once resolved with the given rolls.
pub open spec fn resolved_commitment(d: Defender, attacker_roll: u16, defender_roll: u16) -> Defender {
    Defender {
        attacking_result: attacker_roll,
        defending_result: defender_roll,
        attacker_won: attacker_roll > defender_roll,
        is_attack_resolved: true,
        ..d
    }
}

/// The outcome of resolving commitment `d` on game `g` at `now` with the given
/// rolls: experience is first credited at the tile counts as they stood, then
/// the rolls' outcome is applied.
pub open spec fn resolve_outcome(
    g: GameModel,
    d: Defender,
    now: int,
    attacker_roll: u16,
    defender_roll: u16,
) -> Result<(GameModel, Defender, AttackResolved), HexoneError> {
    let won = attacker_roll > defender_roll;
    if !resolvable(g, d, now) || !xp_accrual_fits(g, now) {
        Err(HexoneError::Invalid)
    } else {
        let g1 = xp_accrued(g, now);
        match outcome_applied(g1, d, won) {
            None => Err(HexoneError::Invalid),
            Some(g2) => {
                let a = d.attacker_tile_index as int;
                let t = d.defender_tile_index as int;
                Ok(
                    (
                        g2,
                        resolved_commitment(d, attacker_roll, defender_roll),
                        AttackResolved {
                            attacker_tile_color: d.attacker_tile_color,
                            attacker_resources: g2.tile_data[a].resource_count,
                            attacker_roll_result: attacker_roll,
                            defender_tile_color: d.defender_tile_color,
                            defender_resources: g2.tile_data[t].resource_count,
                            defender_roll_result: defender_roll,
                            hit_resource_count: if won || g1.tile_data[a].resource_count > 1 {
                                1
                            } else {
                                0
                            },
                        },
                    ),
                )
            },
        }
    }
}

/// Applies a capture to `game`; see [`captured`].
fn capture(game: &mut Game, d: &Defender) -> (r: Result<(), HexoneError>)
    requires
        d.attacker_tile_index < MAX_TILES,
        d.defender_tile_index < MAX_TILES,
        d.attacker_tile_index != d.defender_tile_index,
        old(game).columns > 0,
    ensures
        captured(old(game)@, *d) is Some ==> r == Ok::<(), HexoneError>(()) && final(game)@ == captured(
            old(game)@,
            *d,
        )->Some_0,
        captured(old(game)@, *d) is None ==> r == Err::<(), HexoneError>(HexoneError::Invalid),
{
    let a = d.attacker_tile_index as usize;
    let t = d.defender_tile_index as usize;
    let attacker_tile = game.tile_data[a];
    if attacker_tile.resource_count < 1 {
        return Err(HexoneError::Invalid);
    }
    let old_color = game.tile_data[t].color;
    let new_color = d.attacker_tile_color;
    let tier = get_tile_tier(d.defender_tile_index, game.rows, game.columns);
    game.tile_data[t] = TileData { color: new_color, resource_count: 1 };
    game.tile_data[a] = TileData { resource_count: attacker_tile.resource_count - 1, ..attacker_tile };
    assert(game@ =~= old(game)@.with_tile(t as int, TileData { color: new_color, resource_count: 1 }).with_tile(
        a as int,
        TileData { resource_count: (attacker_tile.resource_count - 1) as u16, ..attacker_tile },
    ));
    let tracked_owner = 1 <= old_color && old_color <= 4;
    if tracked_owner {
        decrement_tile_count(game, old_color)?;
    }
    increment_tile_count(game, new_color)?;
    if tracked_owner {
        update_tier_count_on_loss(game, old_color as usize, tier)?;
    }
    update_tier_count_on_gain(game, new_color as usize, tier)
}

/// Resolves an open commitment with the given rolls (0-999 each). Fails with
/// `Invalid`, changing nothing, unless the game is in progress, the
/// commitment is open and at least the minimum duration old. On success the
/// commitment is marked resolved with its rolls and outcome, and the summary
/// of the outcome is returned.
pub fn resolve_attack_with_rolls(
    ctx: &mut ResolveAttack,
    current_time: i64,
    attacker_roll: u16,
    defender_roll: u16,
) -> (r: Result<AttackResolved, HexoneError>)
    ensures
        match resolve_outcome(old(ctx).game@, old(ctx).defender, current_time as int, attacker_roll, defender_roll) {
            Ok((g, d, ev)) => r == Ok::<AttackResolved, HexoneError>(ev) && final(ctx).game@ == g
                && final(ctx).defender == d,
            Err(e) => r == Err::<AttackResolved, HexoneError>(e) && final(ctx).game@ == old(ctx).game@
                && final(ctx).defender == old(ctx).defender,
        },
        final(ctx).defender_key == old(ctx).defender_key,
        r is Ok && attacker_roll <= defender_roll ==> final(ctx).game@.tile_data[old(
            ctx,
        ).defender.attacker_tile_index as int].resource_count >= 1,
        r is Ok && attacker_roll > defender_roll ==> final(ctx).game@.tile_data[old(
            ctx,
        ).defender.defender_tile_index as int].resource_count >= 1,
{
    let d = ctx.defender;
    if ctx.game.game_state != GameState::InProgress || d.is_attack_resolved {
        return Err(HexoneError::Invalid);
    }
    if (current_time as i128) - (d.attack_started_at as i128) < MIN_ATTACK_DURATION as i128 {
        return Err(HexoneError::Invalid);
    }
    if d.attacker_tile_index as usize >= MAX_TILES || d.defender_tile_index as usize >= MAX_TILES
        || d.attacker_tile_index == d.defender_tile_index || ctx.game.columns == 0 {
        return Err(HexoneError::Invalid);
    }
    let mut game = ctx.game;
    update_all_players_xp(&mut game, current_time)?;
    let a = d.attacker_tile_index as usize;
    let t = d.defender_tile_index as usize;
    let attacker_resources = game.tile_data[a].resource_count;
    let defender_resources = game.tile_data[t].resource_count;
    let attacker_won = attacker_roll > defender_roll;
    if attacker_won {
        if defender_resources > 1 {
            game.tile_data[t] = TileData { resource_count: defender_resources - 1, ..game.tile_data[t] };
        } else {
            capture(&mut game, &d)?;
        }
    } else {
        let left = if attacker_resources > 1 {
            attacker_resources - 1
        } else {
            1
        };
        game.tile_data[a] = TileData { resource_count: left, ..game.tile_data[a] };
    }
    let ghost g1 = xp_accrued(old(ctx).game@, current_time as int);
    assert(outcome_applied(g1, d, attacker_won) == Some(game@)) by {
        if attacker_won && defender_resources > 1 {
            assert(game@ =~= g1.with_tile(
                t as int,
                TileData { resource_count: (defender_resources - 1) as u16, ..g1.tile_data[t as int] },
            ));
        } else if !attacker_won {
            assert(game@ =~= g1.with_tile(
                a as int,
                TileData {
                    resource_count: if attacker_resources > 1 {
                        (attacker_resources - 1) as u16
                    } else {
                        1
                    },
                    ..g1.tile_data[a as int]
                },
            ));
        }
    }
    ctx.game = game;
    ctx.defender = Defender {
        attacking_result: attacker_roll,
        defending_result: defender_roll,
        attacker_won,
        is_attack_resolved: true,
        ..d
    };
    Ok(
        AttackResolved {
            attacker_tile_color: d.attacker_tile_color,
            attacker_resources: game.tile_data[a].resource_count,
            attacker_roll_result: attacker_roll,
            defender_tile_color: d.defender_tile_color,
            defender_resources: game.tile_data[t].resource_count,
            defender_roll_result: defender_roll,
            hit_resource_count: if attacker_won || attacker_resources > 1 {
                1
            } else {
                0
            },
        },
    )
}

/// Resolves an open commitment at `current_time` in block `slot`: draws the
/// attacker's and the defender's rolls from the slot and the commitment's
/// address, then resolves as [`resolve_attack_with_rolls`] does.
/// Anyone may call it, at any time after the minimum duration: commitments do
/// not expire, so an old commitment resolves as a fresh one does.
pub fn resolve_attack(ctx: &mut ResolveAttack, current_time: i64, slot: u64) -> (r: Result<
    AttackResolved,
    HexoneError,
>)
    ensures
        ({
            let attacker_roll = roll_value(slot, attacker_offsets(), old(ctx).defender_key) as u16;
            let defender_roll = roll_value(slot, defender_offsets(), old(ctx).defender_key) as u16;
            match resolve_outcome(
                old(ctx).game@,
                old(ctx).defender,
                current_time as int,
                attacker_roll,
                defender_roll,
            ) {
                Ok((g, d, ev)) => r == Ok::<AttackResolved, HexoneError>(ev) && final(ctx).game@ == g
                    && final(ctx).defender == d,
                Err(e) => r == Err::<AttackResolved, HexoneError>(e) && final(ctx).game@ == old(
                    ctx,
                ).game@ && final(ctx).defender == old(ctx).defender,
            }
        }),
        final(ctx).defender_key == old(ctx).defender_key,
{
    let (attacker_roll, defender_roll) = draw_rolls(slot, &ctx.defender_key);
    resolve_attack_with_rolls(ctx, current_time, attacker_roll, defender_roll)
}

} // verus!
