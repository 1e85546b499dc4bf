use hexone::{
    add_resources, create_game, create_platform, create_player, join_game, move_resources,
    AddResources, CreateGame, CreatePlatform, CreatePlayer, Game, HexoneError, Identity, JoinGame,
    MoveResources, Player, TileData,
};

fn who(n: u8) -> Identity {
    let mut b = [0u8; 32];
    b[0] = n;
    b[31] = 3;
    Identity::from_bytes(b)
}

fn live_game(t0: i64) -> (Game, [Player; 4]) {
    let admin = who(100);
    let platform = create_platform(&CreatePlatform { admin, bump: 1 }, 100_000_000);
    let mut cg = CreateGame { admin, platform, bump: 2 };
    let mut game = create_game(&mut cg).unwrap();
    let mut players = Vec::new();
    for n in 1..=4u8 {
        let mut cp = CreatePlayer { wallet: who(n), platform: cg.platform, bump: 3 };
        let player = create_player(&mut cp, [n; 32]).unwrap();
        let mut jg = JoinGame { wallet: who(n), player, game, game_key: who(200) };
        join_game(&mut jg, 0, t0).unwrap();
        game = jg.game;
        players.push(jg.player);
    }
    (game, [players[0], players[1], players[2], players[3]])
}

#[test]
fn move_claims_an_empty_tile() {
    let t0 = 50_000;
    let (game, _) = live_game(t0);
    let mut ctx = MoveResources { wallet: who(1), game };
    move_resources(&mut ctx, t0 + 10, 0, 1, 40).unwrap();
    assert_eq!(ctx.game.tile_data[0], TileData { color: 1, resource_count: 60 });
    assert_eq!(ctx.game.tile_data[1], TileData { color: 1, resource_count: 40 });
    assert_eq!(ctx.game.players[0].tile_count, 2);
}

#[test]
fn move_onto_own_tile_keeps_counts() {
    let t0 = 50_000;
    let (game, _) = live_game(t0);
    let mut ctx = MoveResources { wallet: who(1), game };
    move_resources(&mut ctx, t0 + 10, 0, 1, 40).unwrap();
    move_resources(&mut ctx, t0 + 20, 1, 0, 39).unwrap();
    assert_eq!(ctx.game.tile_data[0].resource_count, 99);
    assert_eq!(ctx.game.tile_data[1].resource_count, 1);
    assert_eq!(ctx.game.players[0].tile_count, 2);
}

#[test]
fn move_counts_tier_of_claimed_tile() {
    let t0 = 50_000;
    let (mut game, _) = live_game(t0);
    let center = 5 * 13 + 6;
    game.tile_data[center - 1] = TileData { color: 3, resource_count: 10 };
    let mut ctx = MoveResources { wallet: who(3), game };
    move_resources(&mut ctx, t0, (center - 1) as u16, center as u16, 5).unwrap();
    assert_eq!(ctx.game.players[2].tiers.gold, 1);
    assert_eq!(ctx.game.players[2].tile_count, 2);
}

#[test]
fn move_must_leave_one_resource() {
    let t0 = 50_000;
    let (game, _) = live_game(t0);
    let mut ctx = MoveResources { wallet: who(1), game };
    assert_eq!(move_resources(&mut ctx, t0, 0, 1, 100), Err(HexoneError::Invalid));
    assert_eq!(move_resources(&mut ctx, t0, 0, 1, 0), Err(HexoneError::Invalid));
    assert_eq!(ctx.game.tile_data[0].resource_count, 100);
    move_resources(&mut ctx, t0, 0, 1, 99).unwrap();
    assert_eq!(ctx.game.tile_data[0].resource_count, 1);
}

#[test]
fn move_preconditions() {
    let t0 = 50_000;
    let (game, _) = live_game(t0);
    let mut stranger = MoveResources { wallet: who(9), game };
    assert_eq!(move_resources(&mut stranger, t0, 0, 1, 1), Err(HexoneError::PlayerNotAuthorized));
    let mut ctx = MoveResources { wallet: who(1), game };
    // not adjacent
    assert_eq!(move_resources(&mut ctx, t0, 0, 2, 1), Err(HexoneError::Invalid));
    // from another player's tile
    assert_eq!(move_resources(&mut ctx, t0, 12, 11, 1), Err(HexoneError::Invalid));
    // onto another player's tile
    let mut contested = game;
    contested.tile_data[1] = TileData { color: 2, resource_count: 4 };
    let mut c2 = MoveResources { wallet: who(1), game: contested };
    assert_eq!(move_resources(&mut c2, t0, 0, 1, 1), Err(HexoneError::Invalid));
    // destination overflow
    let mut full = game;
    full.tile_data[1] = TileData { color: 1, resource_count: u16::MAX };
    let mut c3 = MoveResources { wallet: who(1), game: full };
    assert_eq!(move_resources(&mut c3, t0, 0, 1, 1), Err(HexoneError::Invalid));
    assert_eq!(c3.game.tile_data[0].resource_count, 100);
}

#[test]
fn add_spends_from_the_shared_pool() {
    let t0 = 60_000;
    let (game, players) = live_game(t0);
    let mut ctx = AddResources { wallet: who(2), player: players[1], game };
    // nothing in the pool yet
    assert_eq!(add_resources(&mut ctx, t0 + 30, 12, 1), Err(HexoneError::Invalid));
    // three minutes later the pool holds 30 for every player
    add_resources(&mut ctx, t0 + 185, 12, 25).unwrap();
    assert_eq!(ctx.game.total_resources_available, 30);
    assert_eq!(ctx.game.players[1].resources_spent, 25);
    assert_eq!(ctx.game.tile_data[12].resource_count, 125);
    assert_eq!(add_resources(&mut ctx, t0 + 190, 12, 6), Err(HexoneError::Invalid));
    add_resources(&mut ctx, t0 + 190, 12, 5).unwrap();
    assert_eq!(ctx.game.players[1].resources_spent, 30);
    // another player draws on the same pool independently
    let mut other = AddResources { wallet: who(3), player: players[2], game: ctx.game };
    add_resources(&mut other, t0 + 190, 130, 30).unwrap();
    assert_eq!(other.game.players[2].resources_spent, 30);
    assert_eq!(other.game.players[1].resources_spent, 30);
}

#[test]
fn spent_never_passes_the_pool() {
    let t0 = 70_000;
    let (game, players) = live_game(t0);
    let mut ctx = AddResources { wallet: who(1), player: players[0], game };
    let mut last_spent = 0;
    for k in 1..20i64 {
        let _ = add_resources(&mut ctx, t0 + 61 * k, 0, 7);
        let spent = ctx.game.players[0].resources_spent;
        assert!(spent >= last_spent);
        assert!(spent <= ctx.game.total_resources_available);
        last_spent = spent;
    }
    assert!(last_spent > 0);
}

#[test]
fn add_preconditions() {
    let t0 = 60_000;
    let (game, players) = live_game(t0);
    let mut not_playing = AddResources { wallet: who(1), player: players[0], game };
    not_playing.player.player_status = 1;
    assert_eq!(add_resources(&mut not_playing, t0 + 500, 0, 1), Err(HexoneError::PlayerNotAuthorized));
    let mut wrong_profile = AddResources { wallet: who(1), player: players[1], game };
    assert_eq!(add_resources(&mut wrong_profile, t0 + 500, 0, 1), Err(HexoneError::PlayerNotAuthorized));
    let mut ctx = AddResources { wallet: who(1), player: players[0], game };
    assert_eq!(add_resources(&mut ctx, t0 + 500, 12, 1), Err(HexoneError::Invalid));
    assert_eq!(add_resources(&mut ctx, t0 + 500, 144, 1), Err(HexoneError::Invalid));
    // more than a tile can hold fails rather than wrapping
    let mut rich = game;
    rich.total_resources_available = u32::MAX;
    let mut big = AddResources { wallet: who(1), player: players[0], game: rich };
    assert_eq!(add_resources(&mut big, t0, 0, 65536), Err(HexoneError::Invalid));
    assert_eq!(big.game.players[0].resources_spent, 0);
}

#[test]
fn move_credits_experience_but_not_the_pool() {
    let t0 = 80_000;
    let (game, _) = live_game(t0);
    let mut ctx = MoveResources { wallet: who(4), game };
    move_resources(&mut ctx, t0 + 60 * 2 + 1, 142, 141, 10).unwrap();
    assert_eq!(ctx.game.players[3].xp, 2);
    assert_eq!(ctx.game.players[0].xp, 2);
    assert_eq!(ctx.game.total_resources_available, 0);
    assert_eq!(ctx.game.available_resources_timestamp, t0);
}

#[test]
fn move_runs_the_winner_election() {
    let t0 = 80_000;
    let (mut game, _) = live_game(t0);
    game.players[0].xp = 20_000;
    let mut ctx = MoveResources { wallet: who(1), game };
    move_resources(&mut ctx, t0 + 5, 0, 1, 1).unwrap();
    assert_eq!(ctx.game.winner_calculation_flag, 1);
    assert!(ctx.game.winning_player_pubkey.same_as(&who(1)));
    // the move itself still completes
    assert_eq!(ctx.game.tile_data[1], TileData { color: 1, resource_count: 1 });
}
