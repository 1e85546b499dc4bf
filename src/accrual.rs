use vstd::prelude::*;

use crate::error::HexoneError;
use crate::game::{
    calculate_tier_bonus_xp, lemma_tier_bonus_rate_bound, tier_bonus_rate, Game, GameModel,
    PlayerSlot, TierCounts,
};

verus! {

/// Whole minutes credited by an accrual at `now` for a counter checkpointed at
/// `checkpoint`. Accrual fires only once strictly more than 60 seconds have
/// passed.
pub open spec fn elapsed_minutes(checkpoint: int, now: int) -> int {
    if now - checkpoint > 60 {
        (now - checkpoint) / 60
    } else {
        0
    }
}

/// The checkpoint after an accrual at `now`: advanced by the consumed whole
/// minutes only, so the sub-minute remainder is carried forward.
pub open spec fn advanced_checkpoint(checkpoint: int, now: int) -> int {
    checkpoint + 60 * elapsed_minutes(checkpoint, now)
}

pub open spec fn saturate_u32(x: int) -> int {
    if x > u32::MAX {
        u32::MAX as int
    } else {
        x
    }
}

/// Experience a player earns over `minutes`: the per-tile rate for every
/// owned tile plus the tier bonus.
pub open spec fn xp_gain(slot: PlayerSlot, per_tile: int, bonus: TierCounts, minutes: int) -> int {
    minutes * (per_tile * slot.tile_count) + minutes * tier_bonus_rate(slot.tiers, bonus)
}

/// Experience of a slot once brought up to `now`, before any bound is applied.
pub open spec fn xp_at(slot: PlayerSlot, per_tile: int, bonus: TierCounts, now: int) -> int {
    slot.xp + xp_gain(slot, per_tile, bonus, elapsed_minutes(slot.xp_timestamp as int, now))
}

/// Whether bringing a slot's experience up to `now` stays within its
/// counters: experience overflow is an error, never a cap.
pub open spec fn slot_accrual_fits(slot: PlayerSlot, per_tile: int, bonus: TierCounts, now: int) -> bool {
    &&& elapsed_minutes(slot.xp_timestamp as int, now) <= u32::MAX
    &&& xp_at(slot, per_tile, bonus, now) <= u32::MAX
}

pub open spec fn accrued_slot(slot: PlayerSlot, per_tile: int, bonus: TierCounts, now: int) -> PlayerSlot {
    PlayerSlot {
        xp: xp_at(slot, per_tile, bonus, now) as u32,
        xp_timestamp: advanced_checkpoint(slot.xp_timestamp as int, now) as i64,
        ..slot
    }
}

pub open spec fn xp_accrual_fits(g: GameModel, now: int) -> bool {
    forall|i: int|
        0 <= i < g.players.len() ==> slot_accrual_fits(
            #[trigger] g.players[i],
            g.xp_per_minute_per_tile as int,
            g.tier_bonus_xp_per_min,
            now,
        )
}

/// The game with every player's experience brought up to `now`.
pub open spec fn xp_accrued(g: GameModel, now: int) -> GameModel {
    GameModel {
        players: g.players.map_values(
            |s: PlayerSlot| accrued_slot(s, g.xp_per_minute_per_tile as int, g.tier_bonus_xp_per_min, now),
        ),
        ..g
    }
}

/// The game with the shared resource pool grown up to `now`; growth saturates
/// at the largest `u32`.
pub open spec fn pool_accrued(g: GameModel, now: int) -> GameModel {
    let cp = g.available_resources_timestamp as int;
    GameModel {
        total_resources_available: saturate_u32(
            g.total_resources_available + elapsed_minutes(cp, now) * g.resources_per_minute,
        ) as u32,
        available_resources_timestamp: advanced_checkpoint(cp, now) as i64,
        ..g
    }
}

/// A full accrual pass ([`accrue`]): the pool, then every player's experience.
pub open spec fn accrued(g: GameModel, now: int) -> GameModel {
    xp_accrued(pool_accrued(g, now), now)
}

pub proof fn lemma_mul_le(a: int, b: int, c: int, d: int)
    requires
        0 <= a <= c,
        0 <= b <= d,
    ensures
        0 <= a * b <= c * d,
{
    assert(0 <= a * b <= c * d) by (nonlinear_arith)
        requires
            0 <= a <= c,
            0 <= b <= d,
    ;
}

pub proof fn lemma_elapsed_minutes_bounds(checkpoint: i64, now: i64)
    ensures
        0 <= elapsed_minutes(checkpoint as int, now as int) <= 0x0444_4444_4444_4444,
        checkpoint <= advanced_checkpoint(checkpoint as int, now as int) <= if now > checkpoint {
            now as int
        } else {
            checkpoint as int
        },
        elapsed_minutes(checkpoint as int, now as int) > 0 ==> now - advanced_checkpoint(
            checkpoint as int,
            now as int,
        ) == (now - checkpoint) % 60,
{
    let d = now - checkpoint;
    if d > 60 {
        assert(60 * (d / 60) <= d && d - 60 * (d / 60) == d % 60) by (nonlinear_arith)
            requires
                d > 60,
        ;
    }
}

/// Whole minutes elapsed from `last_timestamp` to `current_time`, zero unless
/// more than 60 seconds have passed.
pub fn whole_minutes(last_timestamp: i64, current_time: i64) -> (m: u64)
    ensures
        m == elapsed_minutes(last_timestamp as int, current_time as int),
{
    proof {
        lemma_elapsed_minutes_bounds(last_timestamp, current_time);
    }
    let diff: i128 = current_time as i128 - last_timestamp as i128;
    if diff > 60 {
        let d = diff as u128;
        (d / 60) as u64
    } else {
        0
    }
}

/// The checkpoint advanced past `minutes` consumed whole minutes.
fn advance_checkpoint(last_timestamp: i64, current_time: i64, minutes: u64) -> (r: i64)
    requires
        minutes == elapsed_minutes(last_timestamp as int, current_time as int),
    ensures
        r == advanced_checkpoint(last_timestamp as int, current_time as int),
{
    proof {
        lemma_elapsed_minutes_bounds(last_timestamp, current_time);
    }
    (last_timestamp as i128 + minutes as i128 * 60) as i64
}

/// Resources the shared pool grows by between `last_timestamp` and
/// `current_time`: whole minutes times the rate, saturating at the largest `u32`.
pub fn calculate_new_resources(current_time: i64, last_timestamp: i64, resources_per_minute: u32) -> (r:
    u32)
    ensures
        r == saturate_u32(
            elapsed_minutes(last_timestamp as int, current_time as int) * resources_per_minute,
        ),
{
    let m = whole_minutes(last_timestamp, current_time);
    proof {
        lemma_elapsed_minutes_bounds(last_timestamp, current_time);
        lemma_mul_le(m as int, resources_per_minute as int, 0x0444_4444_4444_4444, u32::MAX as int);
    }
    let grown = m as u128 * resources_per_minute as u128;
    if grown > u32::MAX as u128 {
        u32::MAX
    } else {
        grown as u32
    }
}

/// Experience earned from owned tiles between `last_timestamp` and
/// `current_time`: whole minutes times the per-tile rate times the tile count,
/// failing when it does not fit in a `u32`.
pub fn calculate_new_xp(
    current_time: i64,
    last_timestamp: i64,
    xp_per_minute_per_tile: u32,
    number_of_tiles: u32,
) -> (r: Result<u32, HexoneError>)
    ensures
        ({
            let x = elapsed_minutes(last_timestamp as int, current_time as int) * (
            xp_per_minute_per_tile * number_of_tiles);
            if x <= u32::MAX {
                r == Ok::<u32, HexoneError>(x as u32)
            } else {
                r == Err::<u32, HexoneError>(HexoneError::Invalid)
            }
        }),
{
    let m = whole_minutes(last_timestamp, current_time);
    proof {
        lemma_elapsed_minutes_bounds(last_timestamp, current_time);
        lemma_mul_le(
            xp_per_minute_per_tile as int,
            number_of_tiles as int,
            u32::MAX as int,
            u32::MAX as int,
        );
        lemma_mul_le(
            m as int,
            xp_per_minute_per_tile * number_of_tiles,
            0x0444_4444_4444_4444,
            u32::MAX * u32::MAX,
        );
    }
    let rate = xp_per_minute_per_tile as u128 * number_of_tiles as u128;
    let x = m as u128 * rate;
    if x > u32::MAX as u128 {
        Err(HexoneError::Invalid)
    } else {
        Ok(x as u32)
    }
}

/// One slot's experience brought up to `current_time`.
fn accrue_slot(slot: &PlayerSlot, xp_per_minute_per_tile: u32, bonus: &TierCounts, current_time: i64) -> (r:
    Result<PlayerSlot, HexoneError>)
    ensures
        r.is_ok() == slot_accrual_fits(*slot, xp_per_minute_per_tile as int, *bonus, current_time as int),
        r.is_ok() ==> r == Ok::<PlayerSlot, HexoneError>(
            accrued_slot(*slot, xp_per_minute_per_tile as int, *bonus, current_time as int),
        ),
        r.is_err() ==> r == Err::<PlayerSlot, HexoneError>(HexoneError::Invalid),
{
    let m = whole_minutes(slot.xp_timestamp, current_time);
    if m == 0 {
        return Ok(*slot);
    }
    if m > u32::MAX as u64 {
        return Err(HexoneError::Invalid);
    }
    proof {
        lemma_tier_bonus_rate_bound(slot.tiers, *bonus);
        lemma_mul_le(0, 0, m as int, tier_bonus_rate(slot.tiers, *bonus));
        lemma_mul_le(
            0,
            0,
            m as int,
            xp_per_minute_per_tile * slot.tile_count,
        );
        lemma_mul_le(
            xp_per_minute_per_tile as int,
            slot.tile_count as int,
            u32::MAX as int,
            u32::MAX as int,
        );
    }
    let base = match calculate_new_xp(
        current_time,
        slot.xp_timestamp,
        xp_per_minute_per_tile,
        slot.tile_count,
    ) {
        Ok(x) => x,
        Err(e) => {
            return Err(e);
        },
    };
    let tier_bonus = match calculate_tier_bonus_xp(
        m as u32,
        slot.tiers.gold,
        slot.tiers.silver,
        slot.tiers.bronze,
        slot.tiers.iron,
        bonus.gold,
        bonus.silver,
        bonus.bronze,
        bonus.iron,
    ) {
        Ok(x) => x,
        Err(e) => {
            return Err(e);
        },
    };
    let gain = match base.checked_add(tier_bonus) {
        Some(x) => x,
        None => {
            return Err(HexoneError::Invalid);
        },
    };
    let xp = match slot.xp.checked_add(gain) {
        Some(x) => x,
        None => {
            return Err(HexoneError::Invalid);
        },
    };
    let xp_timestamp = advance_checkpoint(slot.xp_timestamp, current_time, m);
    Ok(PlayerSlot { xp, xp_timestamp, ..*slot })
}

/// Credits every player with the experience earned since their checkpoint,
/// at their current tile and tier counts. Fails, changing nothing, when any
/// player's experience would overflow.
pub fn update_all_players_xp(game: &mut Game, current_time: i64) -> (r: Result<(), HexoneError>)
    ensures
        r.is_ok() == xp_accrual_fits(old(game)@, current_time as int),
        r.is_ok() ==> final(game)@ == xp_accrued(old(game)@, current_time as int),
        r.is_err() ==> r == Err::<(), HexoneError>(HexoneError::Invalid) && final(game)@ == old(
            game,
        )@,
{
    let per_tile = game.xp_per_minute_per_tile;
    let bonus = game.tier_bonus_xp_per_min;
    let mut players = game.players;
    let mut i: usize = 0;
    while i < 4
        invariant
            0 <= i <= 4,
            per_tile == game.xp_per_minute_per_tile,
            bonus == game.tier_bonus_xp_per_min,
            game@ == old(game)@,
            forall|j: int|
                0 <= j < i ==> slot_accrual_fits(
                    #[trigger] game.players@[j],
                    per_tile as int,
                    bonus,
                    current_time as int,
                ),
            forall|j: int|
                0 <= j < i ==> #[trigger] players@[j] == accrued_slot(
                    game.players@[j],
                    per_tile as int,
                    bonus,
                    current_time as int,
                ),
            forall|j: int| i <= j < 4 ==> #[trigger] players@[j] == game.players@[j],
        decreases 4 - i,
    {
        match accrue_slot(&players[i], per_tile, &bonus, current_time) {
            Ok(s) => {
                players[i] = s;
            },
            Err(e) => {
                return Err(e);
            },
        }
        i = i + 1;
    }
    game.players = players;
    assert(game@ =~= xp_accrued(old(game)@, current_time as int));
    Ok(())
}

/// Grows the shared resource pool by the whole minutes elapsed since its
/// checkpoint, saturating at the largest `u32`.
pub fn update_available_resources(game: &mut Game, current_time: i64)
    ensures
        final(game)@ == pool_accrued(old(game)@, current_time as int),
{
    let last = game.available_resources_timestamp;
    let m = whole_minutes(last, current_time);
    let grown = calculate_new_resources(current_time, last, game.resources_per_minute);
    game.total_resources_available = game.total_resources_available.saturating_add(grown);
    game.available_resources_timestamp = advance_checkpoint(last, current_time, m);
    assert(game@ =~= pool_accrued(old(game)@, current_time as int));
}

/// The full accrual pass: grows the shared pool and credits every player's
/// experience up to `current_time`. Spending from the pool runs it first;
/// the other instructions credit experience only. Fails, changing nothing,
/// when any player's experience would overflow.
pub fn accrue(game: &mut Game, current_time: i64) -> (r: Result<(), HexoneError>)
    ensures
        r.is_ok() == xp_accrual_fits(old(game)@, current_time as int),
        r.is_ok() ==> final(game)@ == accrued(old(game)@, current_time as int),
        r.is_err() ==> r == Err::<(), HexoneError>(HexoneError::Invalid) && final(game)@ == old(
            game,
        )@,
{
    let ghost g0 = game@;
    let saved_total = game.total_resources_available;
    let saved_timestamp = game.available_resources_timestamp;
    update_available_resources(game, current_time);
    assert(xp_accrual_fits(game@, current_time as int) == xp_accrual_fits(g0, current_time as int));
    let r = update_all_players_xp(game, current_time);
    if r.is_err() {
        // the pool grew before the failure was known: put it back
        game.total_resources_available = saved_total;
        game.available_resources_timestamp = saved_timestamp;
        assert(game@ =~= g0);
    }
    r
}

/// A second accrual at the same instant credits nothing.
proof fn lemma_no_refire(checkpoint: i64, now: i64)
    ensures
        elapsed_minutes(advanced_checkpoint(checkpoint as int, now as int), now as int) == 0,
        advanced_checkpoint(checkpoint as int, now as int) == advanced_checkpoint(checkpoint as int, now as int) as i64,
{
    lemma_elapsed_minutes_bounds(checkpoint, now);
}

proof fn lemma_slot_idempotent(slot: PlayerSlot, per_tile: u32, bonus: TierCounts, now: i64)
    requires
        slot_accrual_fits(slot, per_tile as int, bonus, now as int),
    ensures
        slot_accrual_fits(accrued_slot(slot, per_tile as int, bonus, now as int), per_tile as int, bonus, now as int),
        accrued_slot(accrued_slot(slot, per_tile as int, bonus, now as int), per_tile as int, bonus, now as int)
            == accrued_slot(slot, per_tile as int, bonus, now as int),
{
    lemma_no_refire(slot.xp_timestamp, now);
    let s1 = accrued_slot(slot, per_tile as int, bonus, now as int);
    assert(elapsed_minutes(s1.xp_timestamp as int, now as int) == 0);
    assert(xp_gain(s1, per_tile as int, bonus, 0) == 0);
}

/// Accrual is idempotent: running it twice at the same instant leaves the pool,
/// every player's experience and every checkpoint as one run left them.
pub proof fn lemma_accrual_idempotent(g: GameModel, now: i64)
    requires
        xp_accrual_fits(g, now as int),
    ensures
        xp_accrual_fits(accrued(g, now as int), now as int),
        accrued(accrued(g, now as int), now as int) == accrued(g, now as int),
{
    let n = now as int;
    let g1 = accrued(g, n);
    let p = pool_accrued(g, n);
    lemma_no_refire(g.available_resources_timestamp, now);
    assert(elapsed_minutes(g1.available_resources_timestamp as int, n) == 0);
    assert forall|i: int| 0 <= i < g1.players.len() implies slot_accrual_fits(
        #[trigger] g1.players[i],
        g1.xp_per_minute_per_tile as int,
        g1.tier_bonus_xp_per_min,
        n,
    ) by {
        assert(slot_accrual_fits(g.players[i], g.xp_per_minute_per_tile as int, g.tier_bonus_xp_per_min, n));
        lemma_slot_idempotent(g.players[i], g.xp_per_minute_per_tile, g.tier_bonus_xp_per_min, now);
    }
    let g2 = accrued(g1, n);
    assert forall|i: int| 0 <= i < g1.players.len() implies #[trigger] g2.players[i] == g1.players[i] by {
        lemma_slot_idempotent(g.players[i], g.xp_per_minute_per_tile, g.tier_bonus_xp_per_min, now);
    }
    assert(pool_accrued(g1, n).total_resources_available == g1.total_resources_available);
    assert(g2 =~= g1);
}

/// Whether splitting one accrual over `checkpoint..t2` at `t1` loses nothing to
/// the 60-second debounce: it does only when the first call fires and leaves
/// exactly 60 seconds for the second, which then does not fire.
pub open spec fn split_is_exact(checkpoint: int, t1: int, t2: int) -> bool {
    !(t1 - checkpoint > 60 && (t2 - t1) + (t1 - checkpoint) % 60 == 60)
}

/// For exactly `n` whole minutes plus a sub-minute remainder past the
/// checkpoint (more than 60 seconds in all), one accrual advances the
/// checkpoint by exactly `n * 60` seconds and leaves the remainder.
pub proof fn lemma_checkpoint_advance(checkpoint: int, n: int, rem: int)
    requires
        n >= 0,
        0 <= rem < 60,
        60 * n + rem > 60,
    ensures
        elapsed_minutes(checkpoint, checkpoint + 60 * n + rem) == n,
        advanced_checkpoint(checkpoint, checkpoint + 60 * n + rem) == checkpoint + 60 * n,
        (checkpoint + 60 * n + rem) - advanced_checkpoint(checkpoint, checkpoint + 60 * n + rem) == rem,
{
    assert((60 * n + rem) / 60 == n) by (nonlinear_arith)
        requires
            n >= 0,
            0 <= rem < 60,
    ;
}

proof fn lemma_minutes_split(cp: int, t1: int, t2: int)
    requires
        t1 <= t2,
        split_is_exact(cp, t1, t2),
    ensures
        elapsed_minutes(cp, t2) == elapsed_minutes(cp, t1) + elapsed_minutes(advanced_checkpoint(cp, t1), t2),
        advanced_checkpoint(advanced_checkpoint(cp, t1), t2) == advanced_checkpoint(cp, t2),
        elapsed_minutes(advanced_checkpoint(cp, t1), t2) >= 0,
        elapsed_minutes(cp, t1) >= 0,
{
    if t1 - cp > 60 {
        let m1 = (t1 - cp) / 60;
        let r1 = (t1 - cp) % 60;
        assert(t1 - cp == 60 * m1 + r1 && 0 <= r1 < 60 && m1 >= 1) by (nonlinear_arith)
            requires
                t1 - cp > 60,
                m1 == (t1 - cp) / 60,
                r1 == (t1 - cp) % 60,
        ;
        let d2 = t2 - (cp + 60 * m1);
        assert(d2 == (t2 - t1) + r1);
        assert((60 * m1 + d2) / 60 == m1 + d2 / 60) by (nonlinear_arith)
            requires
                d2 >= 0,
        ;
        assert(d2 != 60);
        if d2 < 60 {
            assert(d2 / 60 == 0);
        }
    }
}

proof fn lemma_slot_split(slot: PlayerSlot, per_tile: u32, bonus: TierCounts, t1: i64, t2: i64)
    requires
        t1 <= t2,
        split_is_exact(slot.xp_timestamp as int, t1 as int, t2 as int),
        slot_accrual_fits(slot, per_tile as int, bonus, t2 as int),
    ensures
        slot_accrual_fits(slot, per_tile as int, bonus, t1 as int),
        slot_accrual_fits(accrued_slot(slot, per_tile as int, bonus, t1 as int), per_tile as int, bonus, t2 as int),
        accrued_slot(accrued_slot(slot, per_tile as int, bonus, t1 as int), per_tile as int, bonus, t2 as int)
            == accrued_slot(slot, per_tile as int, bonus, t2 as int),
{
    let cp = slot.xp_timestamp as int;
    lemma_minutes_split(cp, t1 as int, t2 as int);
    lemma_elapsed_minutes_bounds(slot.xp_timestamp, t1);
    lemma_tier_bonus_rate_bound(slot.tiers, bonus);
    let m1 = elapsed_minutes(cp, t1 as int);
    let m = elapsed_minutes(cp, t2 as int);
    let m2 = m - m1;
    let r = per_tile * slot.tile_count;
    let b = tier_bonus_rate(slot.tiers, bonus);
    lemma_mul_le(per_tile as int, slot.tile_count as int, u32::MAX as int, u32::MAX as int);
    assert(m * r + m * b == (m1 * r + m1 * b) + (m2 * r + m2 * b) && m1 * r >= 0 && m1 * b >= 0
        && m2 * r >= 0 && m2 * b >= 0) by (nonlinear_arith)
        requires
            m1 >= 0,
            m2 >= 0,
            m == m1 + m2,
            r >= 0,
            b >= 0,
    ;
    let s1 = accrued_slot(slot, per_tile as int, bonus, t1 as int);
    assert(s1.tile_count == slot.tile_count && s1.tiers == slot.tiers);
    assert(elapsed_minutes(s1.xp_timestamp as int, t2 as int) == m2);
}

/// Whether every counter of the game (the pool and each player's experience)
/// can be split at `t1` without loss; see [`split_is_exact`].
pub open spec fn game_split_is_exact(g: GameModel, t1: int, t2: int) -> bool {
    &&& split_is_exact(g.available_resources_timestamp as int, t1, t2)
    &&& forall|i: int|
        0 <= i < g.players.len() ==> split_is_exact(#[trigger] g.players[i].xp_timestamp as int, t1, t2)
}

/// Splitting an accrual in two: a pass at `t1` followed by one at `t2` leaves
/// the pool, the experience and the checkpoints exactly as a single pass at
/// `t2` does, and succeeds whenever the single pass does.
pub proof fn lemma_accrual_split(g: GameModel, t1: i64, t2: i64)
    requires
        t1 <= t2,
        game_split_is_exact(g, t1 as int, t2 as int),
        xp_accrual_fits(g, t2 as int),
    ensures
        xp_accrual_fits(g, t1 as int),
        xp_accrual_fits(accrued(g, t1 as int), t2 as int),
        accrued(accrued(g, t1 as int), t2 as int) == accrued(g, t2 as int),
{
    let a = t1 as int;
    let c = t2 as int;
    let per_tile = g.xp_per_minute_per_tile;
    let bonus = g.tier_bonus_xp_per_min;
    assert forall|i: int| 0 <= i < g.players.len() implies slot_accrual_fits(
        #[trigger] g.players[i],
        per_tile as int,
        bonus,
        a,
    ) by {
        assert(slot_accrual_fits(g.players[i], per_tile as int, bonus, c));
        lemma_slot_split(g.players[i], per_tile, bonus, t1, t2);
    }
    let g1 = accrued(g, a);
    assert forall|i: int| 0 <= i < g1.players.len() implies slot_accrual_fits(
        #[trigger] g1.players[i],
        g1.xp_per_minute_per_tile as int,
        g1.tier_bonus_xp_per_min,
        c,
    ) by {
        assert(slot_accrual_fits(g.players[i], per_tile as int, bonus, c));
        lemma_slot_split(g.players[i], per_tile, bonus, t1, t2);
    }
    let g2 = accrued(g1, c);
    let g3 = accrued(g, c);
    assert forall|i: int| 0 <= i < g1.players.len() implies #[trigger] g2.players[i] == g3.players[i] by {
        assert(slot_accrual_fits(g.players[i], per_tile as int, bonus, c));
        lemma_slot_split(g.players[i], per_tile, bonus, t1, t2);
    }
    let cp = g.available_resources_timestamp;
    lemma_minutes_split(cp as int, a, c);
    lemma_elapsed_minutes_bounds(cp, t1);
    let m1 = elapsed_minutes(cp as int, a);
    let m = elapsed_minutes(cp as int, c);
    let m2 = m - m1;
    let rate = g.resources_per_minute as int;
    assert(m * rate == m1 * rate + m2 * rate && m1 * rate >= 0 && m2 * rate >= 0) by (nonlinear_arith)
        requires
            m1 >= 0,
            m2 >= 0,
            m == m1 + m2,
            rate >= 0,
    ;
    assert(g2.total_resources_available == g3.total_resources_available);
    assert(g2.available_resources_timestamp == g3.available_resources_timestamp);
    assert(g2 =~= g3);
}

} // verus!
