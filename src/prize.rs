use vstd::prelude::*;

use crate::accrual::{update_all_players_xp, xp_accrual_fits, xp_accrued};
use crate::error::HexoneError;
use crate::game::{occupied, Game, GameModel, GameState};
use crate::identity::Identity;
use crate::state::Player;
use crate::winner::{after_winner_check, check_for_winner};

verus! {

/// What claiming the prize reads and writes: the caller's wallet and profile,
/// and the game.
#[derive(Clone, Copy, Debug)]
pub struct ClaimPrize {
    pub wallet: Identity,
    pub game: Game,
    pub player: Player,
}

pub open spec fn at_limit(g: GameModel, i: int) -> bool {
    occupied(g.players[i]) && g.players[i].xp >= g.winning_xp_limit
}

/// The first occupied slot whose experience has reached the threshold, or -1.
pub open spec fn first_at_limit(g: GameModel) -> int {
    if at_limit(g, 0) {
        0
    } else if at_limit(g, 1) {
        1
    } else if at_limit(g, 2) {
        2
    } else if at_limit(g, 3) {
        3
    } else {
        -1
    }
}

/// The game and the caller's profile after a successful claim, or why the
/// claim fails. After experience is credited and the winner check runs, the
/// caller may claim when they are the recorded winner, or, while the game is
/// still in progress, when they are the first player at the threshold and
/// also the winner that a second check records.
pub open spec fn claim_outcome(g: GameModel, player: Player, wallet: Identity, now: int) -> Result<
    (GameModel, Player),
    HexoneError,
> {
    if player.wallet != wallet {
        Err(HexoneError::PlayerNotAuthorized)
    } else if !xp_accrual_fits(g, now) {
        Err(HexoneError::Invalid)
    } else {
        match after_winner_check(xp_accrued(g, now), now) {
            None => Err(HexoneError::Invalid),
            Some(g2) => {
                let i = first_at_limit(g2);
                let checked = if g2.game_state == GameState::InProgress && i >= 0 {
                    after_winner_check(g2, now)
                } else {
                    Some(g2)
                };
                match checked {
                    None => Err(HexoneError::Invalid),
                    Some(g3) => {
                        let may_claim = if g2.game_state == GameState::WinnerFoundNotPaidOut {
                            g2.winning_player_pubkey == wallet
                        } else if g2.game_state == GameState::InProgress && i >= 0 {
                            g2.players[i].key == wallet && g3.winning_player_pubkey == wallet
                        } else {
                            false
                        };
                        if !may_claim || player.games_won == u32::MAX {
                            Err(HexoneError::Invalid)
                        } else {
                            Ok(
                                (
                                    GameModel { game_state: GameState::Completed, ..g3 },
                                    Player { games_won: (player.games_won + 1) as u32, ..player },
                                ),
                            )
                        }
                    },
                }
            },
        }
    }
}

/// The first slot at the threshold; see [`first_at_limit`].
fn find_first_at_limit(game: &Game) -> (r: Option<usize>)
    ensures
        first_at_limit(game@) >= 0 ==> r == Some(first_at_limit(game@) as usize),
        first_at_limit(game@) < 0 ==> r is None,
{
    let mut i: usize = 0;
    while i < 4
        invariant
            0 <= i <= 4,
            forall|j: int| 0 <= j < i ==> !at_limit(game@, j),
        decreases 4 - i,
    {
        let slot = game.players[i];
        if !slot.key.is_unset() && slot.xp as u64 >= game.winning_xp_limit {
            return Some(i);
        }
        i = i + 1;
    }
    None
}

/// Claims the prize for the caller. Only the recorded (or just computed)
/// winner may claim. On success the game is completed and the caller's win
/// counter grows by one; moving the prize pool's balance to the caller is
/// left to the host.
pub fn claim_prize(ctx: &mut ClaimPrize, current_time: i64) -> (r: Result<(), HexoneError>)
    ensures
        final(ctx).wallet == old(ctx).wallet,
        match claim_outcome(old(ctx).game@, old(ctx).player, old(ctx).wallet, current_time as int) {
            Ok((g, p)) => r == Ok::<(), HexoneError>(()) && final(ctx).game@ == g && final(ctx).player == p,
            Err(e) => r == Err::<(), HexoneError>(e) && final(ctx).game@ == old(ctx).game@
                && final(ctx).player == old(ctx).player,
        },        r is Ok ==> final(ctx).game@.winning_player_pubkey == old(ctx).wallet
            && final(ctx).game@.game_state == GameState::Completed,
{
    if !ctx.player.wallet.same_as(&ctx.wallet) {
        return Err(HexoneError::PlayerNotAuthorized);
    }
    let mut game = ctx.game;
    update_all_players_xp(&mut game, current_time)?;
    check_for_winner(&mut game, current_time)?;
    let may_claim = if game.game_state == GameState::WinnerFoundNotPaidOut {
        game.winning_player_pubkey.same_as(&ctx.wallet)
    } else if game.game_state == GameState::InProgress {
        match find_first_at_limit(&game) {
            Some(i) => {
                let first = game.players[i].key;
                check_for_winner(&mut game, current_time)?;
                first.same_as(&ctx.wallet) && game.winning_player_pubkey.same_as(&ctx.wallet)
            },
            None => false,
        }
    } else {
        false
    };
    if !may_claim || ctx.player.games_won == u32::MAX {
        return Err(HexoneError::Invalid);
    }
    game.game_state = GameState::Completed;
    ctx.game = game;
    ctx.player.games_won = ctx.player.games_won + 1;
    Ok(())
}

} // verus!
