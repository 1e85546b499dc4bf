use hexone::{
    attack_tile, blockhash_to_u64, create_game, create_platform, create_player, draw_rolls,
    get_simulated_blockhash, join_game, resolve_attack, resolve_attack_with_rolls, roll, AttackTile,
    CreateGame, CreatePlatform, CreatePlayer, Defender, Game, HexoneError, Identity, JoinGame,
    ResolveAttack, TileData,
};

fn addr(n: u8) -> Identity {
    let mut b = [0u8; 32];
    b[0] = n;
    b[31] = 5;
    Identity::from_bytes(b)
}

fn commitment_key() -> Identity {
    let mut b = [0u8; 32];
    for i in 0..32 {
        b[i] = (i + 1) as u8;
    }
    Identity::from_bytes(b)
}

fn game_in_progress(t0: i64) -> Game {
    let admin = addr(100);
    let platform = create_platform(&CreatePlatform { admin, bump: 1 }, 100_000_000);
    let mut cg = CreateGame { admin, platform, bump: 2 };
    let mut game = create_game(&mut cg).unwrap();
    for n in 1..=4u8 {
        let mut cp = CreatePlayer { wallet: addr(n), platform: cg.platform, bump: 3 };
        let player = create_player(&mut cp, [n; 32]).unwrap();
        let mut jg = JoinGame { wallet: addr(n), player, game, game_key: addr(200) };
        join_game(&mut jg, 0, t0).unwrap();
        game = jg.game;
    }
    game
}

/// Red holds tile 0 with `attacker` resources; yellow holds tile 1 with `defender`.
fn frontline(t0: i64, attacker: u16, defender: u16) -> Game {
    let mut game = game_in_progress(t0);
    game.tile_data[0] = TileData { color: 1, resource_count: attacker };
    game.tile_data[1] = TileData { color: 2, resource_count: defender };
    game.players[1].tile_count = 2;
    game
}

fn open_attack(game: Game, now: i64) -> Defender {
    let ctx = AttackTile { player_wallet: addr(1), game, game_key: addr(200), defender: None, bump: 4 };
    attack_tile(&ctx, now, 0, 1).unwrap()
}

#[test]
fn attack_opens_a_commitment() {
    let t0 = 10_000;
    let game = frontline(t0, 2, 1);
    let d = open_attack(game, t0 + 5);
    assert_eq!(d.attacker_tile_index, 0);
    assert_eq!(d.defender_tile_index, 1);
    assert_eq!(d.attacker_tile_color, 1);
    assert_eq!(d.defender_tile_color, 2);
    assert_eq!(d.attack_started_at, t0 + 5);
    assert!(!d.is_attack_resolved);
    assert_eq!(d.bump, 4);
    assert!(d.game.same_as(&addr(200)));
}

#[test]
fn second_attack_on_same_tile_fails_while_one_is_open() {
    let t0 = 10_000;
    let game = frontline(t0, 5, 3);
    let d = open_attack(game, t0 + 5);
    let again = AttackTile { player_wallet: addr(1), game, game_key: addr(200), defender: Some(d), bump: 4 };
    assert_eq!(attack_tile(&again, t0 + 6, 0, 1).err(), Some(HexoneError::Invalid));
}

#[test]
fn attack_preconditions() {
    let t0 = 10_000;
    let game = frontline(t0, 2, 1);
    let ctx = |w: u8, g: Game| AttackTile { player_wallet: addr(w), game: g, game_key: addr(200), defender: None, bump: 4 };
    // not a participant
    assert_eq!(attack_tile(&ctx(9, game), t0, 0, 1).err(), Some(HexoneError::PlayerNotAuthorized));
    // not adjacent
    let mut far = game;
    far.tile_data[5] = TileData { color: 2, resource_count: 1 };
    assert_eq!(attack_tile(&ctx(1, far), t0, 0, 5).err(), Some(HexoneError::Invalid));
    // attacking own tile
    let mut own = game;
    own.tile_data[1].color = 1;
    assert_eq!(attack_tile(&ctx(1, own), t0, 0, 1).err(), Some(HexoneError::Invalid));
    // attacking an unclaimed tile
    let mut empty = game;
    empty.tile_data[1] = TileData { color: 0, resource_count: 0 };
    assert_eq!(attack_tile(&ctx(1, empty), t0, 0, 1).err(), Some(HexoneError::Invalid));
    // attacker must keep one resource
    let thin = frontline(t0, 1, 1);
    assert_eq!(attack_tile(&ctx(1, thin), t0, 0, 1).err(), Some(HexoneError::Invalid));
    // from a tile the caller does not own
    assert_eq!(attack_tile(&ctx(2, game), t0, 0, 1).err(), Some(HexoneError::Invalid));
    // same tile, out of range
    assert_eq!(attack_tile(&ctx(1, game), t0, 0, 0).err(), Some(HexoneError::Invalid));
    assert_eq!(attack_tile(&ctx(1, game), t0, 0, 144).err(), Some(HexoneError::Invalid));
}

#[test]
fn attacker_wins_and_captures_last_resource() {
    let t0 = 10_000;
    let game = frontline(t0, 2, 1);
    let d = open_attack(game, t0);
    let mut ctx = ResolveAttack { game, defender: d, defender_key: commitment_key() };
    let ev = resolve_attack_with_rolls(&mut ctx, t0 + 10, 700, 300).unwrap();
    assert_eq!(ctx.game.tile_data[1], TileData { color: 1, resource_count: 1 });
    assert_eq!(ctx.game.tile_data[0], TileData { color: 1, resource_count: 1 });
    assert_eq!(ctx.game.players[0].tile_count, 2);
    assert_eq!(ctx.game.players[1].tile_count, 1);
    assert!(ctx.defender.is_attack_resolved);
    assert!(ctx.defender.attacker_won);
    assert_eq!(ctx.defender.attacking_result, 700);
    assert_eq!(ctx.defender.defending_result, 300);
    assert_eq!(ev.attacker_resources, 1);
    assert_eq!(ev.defender_resources, 1);
    assert_eq!(ev.hit_resource_count, 1);
}

#[test]
fn defender_wins_and_attacker_loses_one() {
    let t0 = 10_000;
    let game = frontline(t0, 2, 1);
    let d = open_attack(game, t0);
    let mut ctx = ResolveAttack { game, defender: d, defender_key: commitment_key() };
    let ev = resolve_attack_with_rolls(&mut ctx, t0 + 10, 200, 900).unwrap();
    assert_eq!(ctx.game.tile_data[0], TileData { color: 1, resource_count: 1 });
    assert_eq!(ctx.game.tile_data[1], TileData { color: 2, resource_count: 1 });
    assert_eq!(ctx.game.players[0].tile_count, 1);
    assert_eq!(ctx.game.players[1].tile_count, 2);
    assert!(!ctx.defender.attacker_won);
    assert_eq!(ev.attacker_resources, 1);
}

#[test]
fn equal_rolls_favor_the_defender() {
    let t0 = 10_000;
    let game = frontline(t0, 4, 1);
    let d = open_attack(game, t0);
    let mut ctx = ResolveAttack { game, defender: d, defender_key: commitment_key() };
    resolve_attack_with_rolls(&mut ctx, t0 + 10, 500, 500).unwrap();
    assert!(!ctx.defender.attacker_won);
    assert_eq!(ctx.game.tile_data[0].resource_count, 3);
    assert_eq!(ctx.game.tile_data[1].color, 2);
}

#[test]
fn winning_attacker_wears_down_a_strong_tile() {
    let t0 = 10_000;
    let game = frontline(t0, 3, 5);
    let d = open_attack(game, t0);
    let mut ctx = ResolveAttack { game, defender: d, defender_key: commitment_key() };
    resolve_attack_with_rolls(&mut ctx, t0 + 10, 999, 0).unwrap();
    assert_eq!(ctx.game.tile_data[1], TileData { color: 2, resource_count: 4 });
    assert_eq!(ctx.game.tile_data[0].resource_count, 3);
}

#[test]
fn losing_attacker_is_floored_at_one() {
    let t0 = 10_000;
    let game = frontline(t0, 2, 1);
    let d = open_attack(game, t0);
    let mut weakened = game;
    weakened.tile_data[0].resource_count = 1;
    let mut ctx = ResolveAttack { game: weakened, defender: d, defender_key: commitment_key() };
    let ev = resolve_attack_with_rolls(&mut ctx, t0 + 10, 1, 2).unwrap();
    assert_eq!(ctx.game.tile_data[0].resource_count, 1);
    assert_eq!(ev.hit_resource_count, 0);
}

#[test]
fn resolve_before_minimum_duration_fails() {
    let t0 = 10_000;
    let game = frontline(t0, 2, 1);
    let d = open_attack(game, t0);
    let mut ctx = ResolveAttack { game, defender: d, defender_key: commitment_key() };
    assert_eq!(resolve_attack_with_rolls(&mut ctx, t0 + 2, 700, 300), Err(HexoneError::Invalid));
    assert!(!ctx.defender.is_attack_resolved);
    assert_eq!(ctx.game.tile_data[1].color, 2);
    assert_eq!(resolve_attack(&mut ctx, t0 + 2, 3), Err(HexoneError::Invalid));
    assert!(!ctx.defender.is_attack_resolved);
    assert!(resolve_attack_with_rolls(&mut ctx, t0 + 3, 700, 300).is_ok());
}

#[test]
fn resolve_twice_fails() {
    let t0 = 10_000;
    let game = frontline(t0, 2, 1);
    let d = open_attack(game, t0);
    let mut ctx = ResolveAttack { game, defender: d, defender_key: commitment_key() };
    resolve_attack_with_rolls(&mut ctx, t0 + 10, 200, 900).unwrap();
    assert_eq!(resolve_attack_with_rolls(&mut ctx, t0 + 11, 700, 300), Err(HexoneError::Invalid));
}

#[test]
fn capture_moves_tier_counts() {
    let t0 = 10_000;
    let center = 5 * 13 + 6; // gold tile
    let mut game = game_in_progress(t0);
    game.tile_data[center] = TileData { color: 2, resource_count: 1 };
    game.tile_data[center + 1] = TileData { color: 1, resource_count: 3 };
    game.players[1].tiers.gold = 1;
    let ctx = AttackTile { player_wallet: addr(1), game, game_key: addr(200), defender: None, bump: 4 };
    let d = attack_tile(&ctx, t0, (center + 1) as u16, center as u16).unwrap();
    let mut rc = ResolveAttack { game, defender: d, defender_key: commitment_key() };
    resolve_attack_with_rolls(&mut rc, t0 + 5, 10, 9).unwrap();
    assert_eq!(rc.game.players[1].tiers.gold, 0);
    assert_eq!(rc.game.players[0].tiers.gold, 1);
    assert_eq!(rc.game.tile_data[center].color, 1);
}

#[test]
fn experience_is_credited_at_pre_capture_counts() {
    let t0 = 10_000;
    let game = frontline(t0, 2, 1);
    let d = open_attack(game, t0);
    let mut ctx = ResolveAttack { game, defender: d, defender_key: commitment_key() };
    resolve_attack_with_rolls(&mut ctx, t0 + 60 * 3 + 1, 700, 300).unwrap();
    // red had one tile and yellow two during the three minutes
    assert_eq!(ctx.game.players[0].xp, 3);
    assert_eq!(ctx.game.players[1].xp, 6);
    assert_eq!(ctx.game.players[0].tile_count, 2);
}

#[test]
fn simulated_blockhash_digests_slot_offset_and_key() {
    let h = get_simulated_blockhash(42, 0, &commitment_key());
    assert_eq!(
        h,
        [
            41, 65, 78, 102, 201, 151, 80, 28, 105, 213, 77, 3, 185, 154, 221, 193, 196, 100, 244,
            65, 32, 8, 197, 165, 220, 173, 188, 245, 131, 115, 78, 178
        ]
    );
    assert_eq!(blockhash_to_u64(&h), 2040297522459459881);
}

#[test]
fn blockhash_reads_leading_bytes_little_endian() {
    let mut h = [0xffu8; 32];
    h[0] = 1;
    h[1] = 2;
    h[2] = 0;
    h[3] = 0;
    h[4] = 0;
    h[5] = 0;
    h[6] = 0;
    h[7] = 0;
    assert_eq!(blockhash_to_u64(&h), 0x0201);
}

#[test]
fn rolls_follow_the_derivation() {
    let key = commitment_key();
    assert_eq!(draw_rolls(3, &key), (647, 97));
    assert_eq!(draw_rolls(8, &key), (383, 859));
    assert_eq!(draw_rolls(42, &key), (719, 719));
    assert_eq!(roll(1, 0, 4, 8, &key), 73);
    assert_eq!(roll(1, 1, 5, 11, &key), 212);
}

#[test]
fn resolve_draws_rolls_from_the_slot() {
    let t0 = 10_000;
    let game = frontline(t0, 2, 1);
    let d = open_attack(game, t0);
    let mut win = ResolveAttack { game, defender: d, defender_key: commitment_key() };
    resolve_attack(&mut win, t0 + 4, 3).unwrap();
    assert_eq!(win.defender.attacking_result, 647);
    assert_eq!(win.defender.defending_result, 97);
    assert_eq!(win.game.tile_data[1].color, 1);
    let mut tie = ResolveAttack { game, defender: d, defender_key: commitment_key() };
    resolve_attack(&mut tie, t0 + 4, 42).unwrap();
    assert!(!tie.defender.attacker_won);
    assert_eq!(tie.game.tile_data[0].resource_count, 1);
}
