use vstd::prelude::*;

use crate::constants::{
    ACCOUNT_VERSION, BRONZE_TIER_BONUS_XP_PER_MIN, DEFAULT_COLUMNS, DEFAULT_ROWS,
    DEFAULT_WINNING_XP_LIMIT, GOLD_TIER_BONUS_XP_PER_MIN, IRON_TIER_BONUS_XP_PER_MIN, MAX_TILES,
    PLAYER_STATUS_PLAYING, PLAYER_STATUS_READY, RESOURCES_PER_MINUTE, SILVER_TIER_BONUS_XP_PER_MIN,
    STARTING_TILE_RESOURCES, XP_PER_MINUTE_PER_TILE,
};
use crate::error::HexoneError;
use crate::events::GameStarted;
use crate::game::{occupied, Game, GameModel, GameState, PlayerSlot, TierCounts, TileData};
use crate::identity::Identity;
use crate::state::{Platform, Player};

verus! {

/// What creating the platform reads: the admin's wallet and the registry's bump.
#[derive(Clone, Copy, Debug)]
pub struct CreatePlatform {
    pub admin: Identity,
    pub bump: u8,
}

/// A new, empty platform registry administered by the caller, charging
/// `game_cost` lamports to join a game.
pub fn create_platform(ctx: &CreatePlatform, game_cost: u64) -> (r: Platform)
    ensures
        r.admin == ctx.admin,
        r.game_count == 0,
        r.games_completed == 0,
        r.total_players == 0,
        r.game_cost == game_cost,
        r.version == ACCOUNT_VERSION,
        r.bump == ctx.bump,
{
    Platform {
        admin: ctx.admin,
        game_count: 0,
        games_completed: 0,
        total_players: 0,
        game_cost,
        version: ACCOUNT_VERSION,
        bump: ctx.bump,
    }
}

/// The starting board: every tile unclaimed and empty but the four corners,
/// one per colour with the starting resources.
pub open spec fn starting_tile(i: int) -> TileData {
    let cols = DEFAULT_COLUMNS as int;
    let rows = DEFAULT_ROWS as int;
    if i == 0 {
        TileData { color: 1, resource_count: STARTING_TILE_RESOURCES }
    } else if i == cols - 1 {
        TileData { color: 2, resource_count: STARTING_TILE_RESOURCES }
    } else if i == (rows - 1) * cols {
        TileData { color: 3, resource_count: STARTING_TILE_RESOURCES }
    } else if i == rows * cols - 1 {
        TileData { color: 4, resource_count: STARTING_TILE_RESOURCES }
    } else {
        TileData { color: 0, resource_count: 0 }
    }
}

/// Whether `g` is a freshly created game with id `game_id`.
pub open spec fn is_new_game(g: GameModel, admin: Identity, game_id: u64, bump: u8) -> bool {
    &&& g.admin == admin
    &&& g.game_id == game_id
    &&& g.rows == DEFAULT_ROWS && g.columns == DEFAULT_COLUMNS
    &&& g.game_state == GameState::Waiting
    &&& g.version == ACCOUNT_VERSION && g.bump == bump
    &&& g.resources_per_minute == RESOURCES_PER_MINUTE
    &&& g.total_resources_available == 0 && g.available_resources_timestamp == 0
    &&& g.xp_per_minute_per_tile == XP_PER_MINUTE_PER_TILE
    &&& g.tier_bonus_xp_per_min == TierCounts {
        gold: GOLD_TIER_BONUS_XP_PER_MIN,
        silver: SILVER_TIER_BONUS_XP_PER_MIN,
        bronze: BRONZE_TIER_BONUS_XP_PER_MIN,
        iron: IRON_TIER_BONUS_XP_PER_MIN,
    }
    &&& g.winning_player_pubkey.is_unset_spec()
    &&& g.winning_xp_limit == DEFAULT_WINNING_XP_LIMIT
    &&& g.winner_calculation_flag == 0
    &&& g.tile_data == Seq::new(MAX_TILES as nat, |i: int| starting_tile(i))
    &&& forall|i: int|
        0 <= i < 4 ==> {
            let s = #[trigger] g.players[i];
            &&& s.key.is_unset_spec()
            &&& s.resources_spent == 0 && s.xp == 0 && s.xp_timestamp == 0
            &&& s.tile_count == 1
            &&& s.tiers == TierCounts { gold: 0, silver: 0, bronze: 0, iron: 0 }
        }
}

/// What creating a game reads and writes: the caller's wallet, the platform
/// registry, and the new game's bump.
#[derive(Clone, Copy, Debug)]
pub struct CreateGame {
    pub admin: Identity,
    pub platform: Platform,
    pub bump: u8,
}

/// Creates the platform's next game, numbered by the platform's game count,
/// which then grows by one. Only the platform's admin may create games.
pub fn create_game(ctx: &mut CreateGame) -> (r: Result<Game, HexoneError>)
    ensures
        final(ctx).admin == old(ctx).admin,
        final(ctx).bump == old(ctx).bump,
        old(ctx).admin != old(ctx).platform.admin ==> r == Err::<Game, HexoneError>(
            HexoneError::Unauthorized,
        ) && final(ctx).platform == old(ctx).platform,
        old(ctx).admin == old(ctx).platform.admin && old(ctx).platform.game_count == u64::MAX ==> r
            == Err::<Game, HexoneError>(HexoneError::Invalid) && final(ctx).platform == old(
            ctx,
        ).platform,
        old(ctx).admin == old(ctx).platform.admin && old(ctx).platform.game_count < u64::MAX ==> {
            &&& r is Ok
            &&& is_new_game(r->Ok_0@, old(ctx).admin, old(ctx).platform.game_count, old(ctx).bump)
            &&& final(ctx).platform == Platform {
                game_count: (old(ctx).platform.game_count + 1) as u64,
                ..old(ctx).platform
            }
        },
{
    if !ctx.admin.same_as(&ctx.platform.admin) {
        return Err(HexoneError::Unauthorized);
    }
    if ctx.platform.game_count == u64::MAX {
        return Err(HexoneError::Invalid);
    }
    let empty_slot = PlayerSlot {
        key: Identity::unset(),
        resources_spent: 0,
        xp: 0,
        xp_timestamp: 0,
        tile_count: 1,
        tiers: TierCounts::zero(),
    };
    let mut tile_data = [TileData { color: 0, resource_count: 0 }; MAX_TILES];
    let rows = DEFAULT_ROWS as usize;
    let columns = DEFAULT_COLUMNS as usize;
    tile_data[0] = TileData { color: 1, resource_count: STARTING_TILE_RESOURCES };
    tile_data[columns - 1] = TileData { color: 2, resource_count: STARTING_TILE_RESOURCES };
    tile_data[(rows - 1) * columns] = TileData { color: 3, resource_count: STARTING_TILE_RESOURCES };
    tile_data[rows * columns - 1] = TileData { color: 4, resource_count: STARTING_TILE_RESOURCES };
    let game = Game {
        admin: ctx.admin,
        players: [empty_slot; 4],
        game_id: ctx.platform.game_count,
        available_resources_timestamp: 0,
        resources_per_minute: RESOURCES_PER_MINUTE,
        total_resources_available: 0,
        xp_per_minute_per_tile: XP_PER_MINUTE_PER_TILE,
        tile_data,
        tier_bonus_xp_per_min: TierCounts {
            gold: GOLD_TIER_BONUS_XP_PER_MIN,
            silver: SILVER_TIER_BONUS_XP_PER_MIN,
            bronze: BRONZE_TIER_BONUS_XP_PER_MIN,
            iron: IRON_TIER_BONUS_XP_PER_MIN,
        },
        winning_player_pubkey: Identity::unset(),
        winning_xp_limit: DEFAULT_WINNING_XP_LIMIT,
        game_state: GameState::Waiting,
        rows: DEFAULT_ROWS,
        columns: DEFAULT_COLUMNS,
        version: ACCOUNT_VERSION,
        bump: ctx.bump,
        winner_calculation_flag: 0,
    };
    assert(game@.tile_data =~= Seq::new(MAX_TILES as nat, |i: int| starting_tile(i)));
    ctx.platform.game_count = ctx.platform.game_count + 1;
    Ok(game)
}

/// What creating a profile reads and writes: the caller's wallet, the
/// platform registry, and the profile's bump.
#[derive(Clone, Copy, Debug)]
pub struct CreatePlayer {
    pub wallet: Identity,
    pub platform: Platform,
    pub bump: u8,
}

/// Creates the caller's profile, ready to join a game, and counts it on the
/// platform.
pub fn create_player(ctx: &mut CreatePlayer, name: [u8; 32]) -> (r: Result<Player, HexoneError>)
    ensures
        final(ctx).wallet == old(ctx).wallet,
        final(ctx).bump == old(ctx).bump,
        old(ctx).platform.total_players == u64::MAX ==> r == Err::<Player, HexoneError>(
            HexoneError::Invalid,
        ) && final(ctx).platform == old(ctx).platform,
        old(ctx).platform.total_players < u64::MAX ==> (r == Ok::<Player, HexoneError>(
            Player {
                wallet: old(ctx).wallet,
                name,
                games_played: 0,
                games_won: 0,
                last_game: None,
                created_at: 0,
                player_status: PLAYER_STATUS_READY,
                version: ACCOUNT_VERSION,
                bump: old(ctx).bump,
            },
        ) && final(ctx).platform == (Platform {
            total_players: (old(ctx).platform.total_players + 1) as u64,
            ..old(ctx).platform
        })),
{
    if ctx.platform.total_players == u64::MAX {
        return Err(HexoneError::Invalid);
    }
    ctx.platform.total_players = ctx.platform.total_players + 1;
    Ok(
        Player {
            wallet: ctx.wallet,
            name,
            games_played: 0,
            games_won: 0,
            last_game: None,
            created_at: 0,
            player_status: PLAYER_STATUS_READY,
            version: ACCOUNT_VERSION,
            bump: ctx.bump,
        },
    )
}

/// What joining a game reads and writes: the caller's wallet and profile, the
/// game and its address.
#[derive(Clone, Copy, Debug)]
pub struct JoinGame {
    pub wallet: Identity,
    pub player: Player,
    pub game: Game,
    pub game_key: Identity,
}

/// The first open slot of `g`, or -1 when all four are taken.
pub open spec fn first_open_slot(g: GameModel) -> int {
    if !occupied(g.players[0]) {
        0
    } else if !occupied(g.players[1]) {
        1
    } else if !occupied(g.players[2]) {
        2
    } else if !occupied(g.players[3]) {
        3
    } else {
        -1
    }
}

/// The game once its clock starts at `now`: in progress, with the pool and
/// every player's experience checkpointed at `now`.
pub open spec fn started(g: GameModel, now: i64) -> GameModel {
    GameModel {
        game_state: GameState::InProgress,
        available_resources_timestamp: now,
        players: g.players.map_values(|s: PlayerSlot| PlayerSlot { xp_timestamp: now, ..s }),
        ..g
    }
}

/// The game, the caller's profile and the start event after the caller joins,
/// or why they cannot. The caller takes the first open slot; when that fills
/// the last one the game starts.
pub open spec fn join_outcome(
    g: GameModel,
    player: Player,
    wallet: Identity,
    game_key: Identity,
    game_id: u64,
    now: i64,
) -> Result<(GameModel, Player, Option<GameStarted>), HexoneError> {
    let i = first_open_slot(g);
    if player.wallet != wallet {
        Err(HexoneError::PlayerNotAuthorized)
    } else if g.game_id != game_id {
        Err(HexoneError::Invalid)
    } else if player.player_status != PLAYER_STATUS_READY {
        Err(HexoneError::PlayerNotReady)
    } else if g.game_state != GameState::Waiting {
        Err(HexoneError::GameNotWaiting)
    } else if i < 0 {
        Err(HexoneError::GameFull)
    } else {
        let g1 = g.with_slot(i, PlayerSlot { key: wallet, ..g.players[i] });
        let p1 = Player { player_status: PLAYER_STATUS_PLAYING, last_game: Some(game_key), ..player };
        if first_open_slot(g1) < 0 {
            Ok((started(g1, now), p1, Some(GameStarted { game_id: g.game_id })))
        } else {
            Ok((g1, p1, None))
        }
    }
}

/// The first open slot; see [`first_open_slot`].
fn find_open_slot(game: &Game) -> (r: Option<usize>)
    ensures
        first_open_slot(game@) >= 0 ==> r == Some(first_open_slot(game@) as usize),
        first_open_slot(game@) < 0 ==> r is None,
{
    let mut i: usize = 0;
    while i < 4
        invariant
            0 <= i <= 4,
            forall|j: int| 0 <= j < i ==> occupied(#[trigger] game@.players[j]),
        decreases 4 - i,
    {
        if game.players[i].key.is_unset() {
            return Some(i);
        }
        i = i + 1;
    }
    None
}

/// Puts the caller into the first open slot of a waiting game. When the
/// fourth slot fills, the game starts: it goes in progress and every accrual
/// checkpoint is set to `current_time`. Collecting the entry cost into the
/// prize pool is left to the host.
pub fn join_game(ctx: &mut JoinGame, game_id: u64, current_time: i64) -> (r: Result<
    Option<GameStarted>,
    HexoneError,
>)
    ensures
        final(ctx).wallet == old(ctx).wallet,
        final(ctx).game_key == old(ctx).game_key,
        match join_outcome(
            old(ctx).game@,
            old(ctx).player,
            old(ctx).wallet,
            old(ctx).game_key,
            game_id,
            current_time,
        ) {
            Ok((g, p, ev)) => r == Ok::<Option<GameStarted>, HexoneError>(ev) && final(ctx).game@ == g
                && final(ctx).player == p,
            Err(e) => r == Err::<Option<GameStarted>, HexoneError>(e) && final(ctx).game@ == old(
                ctx,
            ).game@ && final(ctx).player == old(ctx).player,
        },
{
    if !ctx.player.wallet.same_as(&ctx.wallet) {
        return Err(HexoneError::PlayerNotAuthorized);
    }
    if ctx.game.game_id != game_id {
        return Err(HexoneError::Invalid);
    }
    if ctx.player.player_status != PLAYER_STATUS_READY {
        return Err(HexoneError::PlayerNotReady);
    }
    if ctx.game.game_state != GameState::Waiting {
        return Err(HexoneError::GameNotWaiting);
    }
    let i = match find_open_slot(&ctx.game) {
        Some(i) => i,
        None => {
            return Err(HexoneError::GameFull);
        },
    };
    let ghost g0 = ctx.game@;
    let mut game = ctx.game;
    game.players[i] = PlayerSlot { key: ctx.wallet, ..game.players[i] };
    assert(game@ =~= g0.with_slot(i as int, PlayerSlot { key: ctx.wallet, ..g0.players[i as int] }));
    ctx.player.player_status = PLAYER_STATUS_PLAYING;
    ctx.player.last_game = Some(ctx.game_key);
    let event = match find_open_slot(&game) {
        Some(_) => None,
        None => {
            let ghost g1 = game@;
            game.game_state = GameState::InProgress;
            game.available_resources_timestamp = current_time;
            let mut k: usize = 0;
            while k < 4
                invariant
                    0 <= k <= 4,
                    forall|j: int|
                        0 <= j < k ==> #[trigger] game@.players[j] == (PlayerSlot {
                            xp_timestamp: current_time,
                            ..g1.players[j]
                        }),
                    forall|j: int| k <= j < 4 ==> #[trigger] game@.players[j] == g1.players[j],
                    game@ == (GameModel { players: game@.players, ..started(g1, current_time) }),
                decreases 4 - k,
            {
                game.players[k] = PlayerSlot { xp_timestamp: current_time, ..game.players[k] };
                k = k + 1;
            }
            assert(game@ =~= started(g1, current_time));
            Some(GameStarted { game_id: game.game_id })
        },
    };
    ctx.game = game;
    Ok(event)
}

} // verus!
