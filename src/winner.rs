use vstd::prelude::*;

use crate::accrual::{elapsed_minutes, lemma_mul_le, whole_minutes, xp_at, xp_gain};
use crate::error::HexoneError;
use crate::game::{
    calculate_tier_bonus_xp, lemma_tier_bonus_rate_bound, occupied, tier_bonus_rate, Game, GameModel,
    GameState, PlayerSlot, TierCounts,
};

verus! {

/// Whether some occupied slot has reached the game's experience threshold.
pub open spec fn limit_reached(g: GameModel) -> bool {
    exists|i: int|
        0 <= i < g.players.len() && occupied(#[trigger] g.players[i]) && g.players[i].xp
            >= g.winning_xp_limit
}

/// Whether the one-shot winner election runs now.
pub open spec fn election_due(g: GameModel) -> bool {
    &&& g.game_state == GameState::InProgress
    &&& limit_reached(g)
    &&& g.winner_calculation_flag == 0
}

/// Projected experience of slot `i`: its experience plus what the time not yet
/// credited would add.
pub open spec fn projected_xp(g: GameModel, i: int, now: int) -> int {
    xp_at(g.players[i], g.xp_per_minute_per_tile as int, g.tier_bonus_xp_per_min, now)
}

/// Whether the projection of a slot stays within its counters: the minute
/// count and the tier bonus within a `u32`, the total within a `u64`.
pub open spec fn projection_fits(slot: PlayerSlot, per_tile: int, bonus: TierCounts, now: int) -> bool {
    let m = elapsed_minutes(slot.xp_timestamp as int, now);
    &&& m <= u32::MAX
    &&& m * tier_bonus_rate(slot.tiers, bonus) <= u32::MAX
    &&& xp_at(slot, per_tile, bonus, now) <= u64::MAX
}

pub open spec fn projections_fit(g: GameModel, now: int) -> bool {
    forall|i: int|
        0 <= i < g.players.len() && occupied(#[trigger] g.players[i]) ==> projection_fits(
            g.players[i],
            g.xp_per_minute_per_tile as int,
            g.tier_bonus_xp_per_min,
            now,
        )
}

/// Among the occupied slots below `n`, the one with the highest projected
/// experience; on equal projections the lowest slot wins. -1 when none is
/// occupied.
pub open spec fn best_slot(g: GameModel, now: int, n: nat) -> int
    decreases n,
{
    if n == 0 {
        -1
    } else {
        let b = best_slot(g, now, (n - 1) as nat);
        let i = n - 1;
        if !occupied(g.players[i]) {
            b
        } else if b < 0 || projected_xp(g, i, now) > projected_xp(g, b, now) {
            i
        } else {
            b
        }
    }
}

/// The game after the election: the latch set and, when a slot is occupied,
/// the best slot recorded as winner with the game awaiting payout.
pub open spec fn elected(g: GameModel, now: int) -> GameModel {
    let b = best_slot(g, now, 4);
    if b >= 0 {
        GameModel {
            winner_calculation_flag: 1,
            winning_player_pubkey: g.players[b].key,
            game_state: GameState::WinnerFoundNotPaidOut,
            ..g
        }
    } else {
        GameModel { winner_calculation_flag: 1, ..g }
    }
}

/// The outcome of [`check_for_winner`] on `g` at `now`: `None` when it fails.
pub open spec fn after_winner_check(g: GameModel, now: int) -> Option<GameModel> {
    if !election_due(g) {
        Some(g)
    } else if !projections_fit(g, now) {
        None
    } else {
        Some(elected(g, now))
    }
}

/// The election runs at most once: once the latch is set, a later check
/// changes nothing, whoever crosses the threshold next.
pub proof fn lemma_election_runs_once(g: GameModel, now: int, later: int)
    requires
        election_due(g),
        projections_fit(g, now),
    ensures
        elected(g, now).winner_calculation_flag == 1,
        after_winner_check(elected(g, now), later) == Some(elected(g, now)),
        forall|h: GameModel|
            h.winner_calculation_flag == 1 ==> #[trigger] after_winner_check(h, later) == Some(h),
{
}

proof fn lemma_best_slot_range(g: GameModel, now: int, n: nat)
    requires
        n <= g.players.len(),
    ensures
        -1 <= best_slot(g, now, n) < n,
        best_slot(g, now, n) >= 0 ==> occupied(g.players[best_slot(g, now, n)]),
    decreases n,
{
    if n > 0 {
        lemma_best_slot_range(g, now, (n - 1) as nat);
    }
}

/// Projected experience of one slot at `current_time`.
fn projected_total(slot: &PlayerSlot, xp_per_minute_per_tile: u32, bonus: &TierCounts, current_time: i64) -> (r:
    Result<u64, HexoneError>)
    ensures
        r.is_ok() == projection_fits(*slot, xp_per_minute_per_tile as int, *bonus, current_time as int),
        r.is_ok() ==> r == Ok::<u64, HexoneError>(
            xp_at(*slot, xp_per_minute_per_tile as int, *bonus, current_time as int) as u64,
        ),
        r.is_err() ==> r == Err::<u64, HexoneError>(HexoneError::Invalid),
{
    let m = whole_minutes(slot.xp_timestamp, current_time);
    if m == 0 {
        assert(xp_gain(*slot, xp_per_minute_per_tile as int, *bonus, 0) == 0);
        return Ok(slot.xp as u64);
    }
    if m > u32::MAX as u64 {
        return Err(HexoneError::Invalid);
    }
    proof {
        lemma_tier_bonus_rate_bound(slot.tiers, *bonus);
        lemma_mul_le(0, 0, m as int, tier_bonus_rate(slot.tiers, *bonus));
        lemma_mul_le(
            xp_per_minute_per_tile as int,
            slot.tile_count as int,
            u32::MAX as int,
            u32::MAX as int,
        );
        lemma_mul_le(
            m as int,
            xp_per_minute_per_tile * slot.tile_count,
            u32::MAX as int,
            u32::MAX * u32::MAX,
        );
    }
    let tier_bonus = match calculate_tier_bonus_xp(
        m as u32,
        slot.tiers.gold,
        slot.tiers.silver,
        slot.tiers.bronze,
        slot.tiers.iron,
        bonus.gold,
        bonus.silver,
        bonus.bronze,
        bonus.iron,
    ) {
        Ok(x) => x,
        Err(e) => {
            return Err(e);
        },
    };
    let base = m as u128 * (xp_per_minute_per_tile as u128 * slot.tile_count as u128);
    let total = slot.xp as u128 + base + tier_bonus as u128;
    if total > u64::MAX as u128 {
        Err(HexoneError::Invalid)
    } else {
        Ok(total as u64)
    }
}

/// Runs the one-shot winner election. While the game is in progress and the
/// latch is unset, once any occupied slot's experience meets the threshold the
/// latch is set, each occupied slot's projected experience is computed and the
/// highest (lowest slot on ties) becomes the winner, moving the game to
/// awaiting payout. Fails, changing nothing, when a projection overflows.
pub fn check_for_winner(game: &mut Game, current_time: i64) -> (r: Result<(), HexoneError>)
    ensures
        after_winner_check(old(game)@, current_time as int) is Some ==> r == Ok::<(), HexoneError>(())
            && final(game)@ == after_winner_check(old(game)@, current_time as int)->Some_0,
        after_winner_check(old(game)@, current_time as int) is None ==> r == Err::<(), HexoneError>(
            HexoneError::Invalid,
        ) && final(game)@ == old(game)@,
{
    if game.game_state != GameState::InProgress {
        return Ok(());
    }
    let ghost g = game@;
    let mut found = false;
    let mut i: usize = 0;
    while i < 4 && !found
        invariant
            0 <= i <= 4,
            g == game@,
            found ==> limit_reached(g),
            !found ==> forall|j: int|
                0 <= j < i ==> !(occupied(#[trigger] g.players[j]) && g.players[j].xp
                    >= g.winning_xp_limit),
        decreases 4 - i,
    {
        let slot = game.players[i];
        if !slot.key.is_unset() && slot.xp as u64 >= game.winning_xp_limit {
            assert(occupied(g.players[i as int]));
            found = true;
        }
        i = i + 1;
    }
    if !(found && game.winner_calculation_flag == 0) {
        return Ok(());
    }
    assert(election_due(g));
    let per_tile = game.xp_per_minute_per_tile;
    let bonus = game.tier_bonus_xp_per_min;
    let mut has_best = false;
    let mut best: usize = 0;
    let mut best_total: u64 = 0;
    let mut i: usize = 0;
    while i < 4
        invariant
            0 <= i <= 4,
            g == game@,
            election_due(g),
            per_tile == g.xp_per_minute_per_tile,
            bonus == g.tier_bonus_xp_per_min,
            (if has_best { best as int } else { -1 }) == best_slot(g, current_time as int, i as nat),
            has_best ==> best < 4 && best_total == projected_xp(g, best as int, current_time as int),
            forall|j: int|
                0 <= j < i && occupied(#[trigger] g.players[j]) ==> projection_fits(
                    g.players[j],
                    g.xp_per_minute_per_tile as int,
                    g.tier_bonus_xp_per_min,
                    current_time as int,
                ),
        decreases 4 - i,
    {
        proof {
            lemma_best_slot_range(g, current_time as int, i as nat);
        }
        let slot = game.players[i];
        if !slot.key.is_unset() {
            let total = match projected_total(&slot, per_tile, &bonus, current_time) {
                Ok(t) => t,
                Err(e) => {
                    assert(occupied(g.players[i as int]));
                    return Err(e);
                },
            };
            if !has_best || total > best_total {
                has_best = true;
                best = i;
                best_total = total;
            }
        }
        i = i + 1;
    }
    game.winner_calculation_flag = 1;
    if has_best {
        game.winning_player_pubkey = game.players[best].key;
        game.game_state = GameState::WinnerFoundNotPaidOut;
    }
    assert(game@ =~= elected(g, current_time as int));
    Ok(())
}

} // verus!
