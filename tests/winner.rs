use hexone::{
    check_for_winner, create_game, create_platform, create_player, join_game,
    update_tier_count_on_gain, update_tier_count_on_loss, CreateGame, CreatePlatform, CreatePlayer,
    Game, GameState, HexoneError, Identity, JoinGame,
};

fn seat(n: u8) -> Identity {
    let mut b = [0u8; 32];
    b[0] = n;
    b[31] = 2;
    Identity::from_bytes(b)
}

fn match_in_progress(t0: i64) -> Game {
    let admin = seat(100);
    let platform = create_platform(&CreatePlatform { admin, bump: 1 }, 100_000_000);
    let mut cg = CreateGame { admin, platform, bump: 2 };
    let mut game = create_game(&mut cg).unwrap();
    for n in 1..=4u8 {
        let mut cp = CreatePlayer { wallet: seat(n), platform: cg.platform, bump: 3 };
        let player = create_player(&mut cp, [n; 32]).unwrap();
        let mut jg = JoinGame { wallet: seat(n), player, game, game_key: seat(200) };
        join_game(&mut jg, 0, t0).unwrap();
        game = jg.game;
    }
    game
}

#[test]
fn latch_sets_once_on_first_crossing() {
    let t0 = 9_000;
    let mut game = match_in_progress(t0);
    check_for_winner(&mut game, t0).unwrap();
    assert_eq!(game.winner_calculation_flag, 0);
    assert_eq!(game.game_state, GameState::InProgress);
    game.players[1].xp = 10_000;
    game.players[0].xp = 9_000;
    check_for_winner(&mut game, t0).unwrap();
    assert_eq!(game.winner_calculation_flag, 1);
    assert_eq!(game.game_state, GameState::WinnerFoundNotPaidOut);
    assert!(game.winning_player_pubkey.same_as(&seat(2)));
    // a later, larger crossing by another player does not re-elect
    game.players[3].xp = 50_000;
    check_for_winner(&mut game, t0).unwrap();
    assert_eq!(game.winner_calculation_flag, 1);
    assert!(game.winning_player_pubkey.same_as(&seat(2)));
    // not even when the game is back in progress with the latch set
    game.game_state = GameState::InProgress;
    check_for_winner(&mut game, t0).unwrap();
    assert!(game.winning_player_pubkey.same_as(&seat(2)));
    assert_eq!(game.game_state, GameState::InProgress);
}

#[test]
fn election_uses_projected_experience() {
    let t0 = 9_000;
    let mut game = match_in_progress(t0);
    game.players[0].xp = 10_000;
    game.players[2].xp = 9_990;
    game.players[2].tile_count = 10;
    // three uncredited minutes: slot 2 projects 9990 + 30, slot 0 10000 + 3
    check_for_winner(&mut game, t0 + 185).unwrap();
    assert!(game.winning_player_pubkey.same_as(&seat(3)));
}

#[test]
fn equal_projections_go_to_lowest_slot() {
    let t0 = 9_000;
    let mut game = match_in_progress(t0);
    game.players[1].xp = 12_000;
    game.players[3].xp = 12_000;
    check_for_winner(&mut game, t0).unwrap();
    assert!(game.winning_player_pubkey.same_as(&seat(2)));
}

#[test]
fn projection_overflow_fails_and_leaves_latch() {
    let t0 = 9_000;
    let mut game = match_in_progress(t0);
    game.players[0].xp = 10_000;
    game.players[1].tiers.gold = 255;
    game.tier_bonus_xp_per_min.gold = 255;
    // 255*255 per minute for over 66,000 minutes passes a u32 bonus
    assert_eq!(check_for_winner(&mut game, t0 + 60 * 70_000), Err(HexoneError::Invalid));
    assert_eq!(game.winner_calculation_flag, 0);
}

#[test]
fn no_election_outside_play() {
    let t0 = 9_000;
    let mut game = match_in_progress(t0);
    game.players[0].xp = 10_000;
    game.game_state = GameState::Completed;
    check_for_winner(&mut game, t0).unwrap();
    assert_eq!(game.winner_calculation_flag, 0);
}

#[test]
fn tier_counters_gain_and_loss() {
    let mut game = match_in_progress(0);
    update_tier_count_on_gain(&mut game, 2, 0).unwrap();
    update_tier_count_on_gain(&mut game, 2, 3).unwrap();
    update_tier_count_on_gain(&mut game, 4, 1).unwrap();
    assert_eq!(game.players[1].tiers.gold, 1);
    assert_eq!(game.players[1].tiers.iron, 1);
    assert_eq!(game.players[3].tiers.silver, 1);
    update_tier_count_on_loss(&mut game, 2, 0).unwrap();
    assert_eq!(game.players[1].tiers.gold, 0);
    assert_eq!(update_tier_count_on_loss(&mut game, 2, 0), Err(HexoneError::Invalid));
    assert_eq!(update_tier_count_on_gain(&mut game, 3, 4), Ok(()));
    assert_eq!(update_tier_count_on_loss(&mut game, 0, 4), Ok(()));
    assert_eq!(update_tier_count_on_gain(&mut game, 5, 0), Err(HexoneError::Invalid));
    assert_eq!(update_tier_count_on_gain(&mut game, 1, 7), Err(HexoneError::Invalid));
    game.players[0].tiers.bronze = 255;
    assert_eq!(update_tier_count_on_gain(&mut game, 1, 2), Err(HexoneError::Invalid));
    assert_eq!(game.players[0].tiers.bronze, 255);
}
