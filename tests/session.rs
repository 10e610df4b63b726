use goose_flowers::assets::{GameConfig, GameConfigFile, GameConfigLoadError, UNIT};
use goose_flowers::enemy::Enemy;
use goose_flowers::game::Game;
use goose_flowers::player::Position;
use goose_flowers::ui::{
    decimal_string, flower_count_string, game_timer_string, spawn_game_over_ui, spawn_hud,
    summary_string, update_flower_count, update_game_timer, GameOverButtonChoice,
};
use goose_flowers::GameState;

fn scenario_config() -> GameConfigFile {
    GameConfigFile::new(25 * UNIT, 1024 * UNIT, 50, 20 * UNIT, 60_000).unwrap()
}

fn started(config: GameConfigFile) -> Game {
    let mut game = Game::new();
    game.finish_loading(Ok(config));
    game
}

/// Moves every pickup far from the origin, but for the first, which goes to `first`.
fn arrange(game: &mut Game, first: Position) {
    for f in game.flowers.iter_mut() {
        f.position = Position { x: 1_000_000, y: 1_000_000 };
    }
    game.flowers[0].position = first;
}

#[test]
fn config_rejects_non_positive_fields() {
    assert_eq!(GameConfigFile::new(0, 1024, 50, 20, 60_000), Err(GameConfigLoadError::InvalidValue));
    assert_eq!(GameConfigFile::new(25, 0, 50, 20, 60_000), Err(GameConfigLoadError::InvalidValue));
    assert_eq!(GameConfigFile::new(25, 1024, 0, 20, 60_000), Err(GameConfigLoadError::InvalidValue));
    assert_eq!(GameConfigFile::new(25, 1024, 50, 0, 60_000), Err(GameConfigLoadError::InvalidValue));
    assert_eq!(GameConfigFile::new(25, 1024, 50, 20, 0), Err(GameConfigLoadError::InvalidValue));
    let c = scenario_config();
    assert_eq!(c.player_move_speed, 25_000);
    assert_eq!(c.world_size, 1_024_000);
    assert_eq!(c.num_flowers, 50);
    assert_eq!(c.flower_pickup_range, 20_000);
    assert_eq!(c.game_time_millis, 60_000);
}

#[test]
fn config_store_keeps_first_load() {
    let mut store = GameConfig::new();
    assert!(store.get().is_none());
    store.finish_load(Err(GameConfigLoadError::ParseError));
    assert!(store.get().is_none());
    store.finish_load(Ok(scenario_config()));
    assert_eq!(store.get(), Some(&scenario_config()));
    store.finish_load(Ok(GameConfigFile::new(1, 1, 1, 1, 1).unwrap()));
    assert_eq!(store.get(), Some(&scenario_config()));
}

#[test]
fn failed_load_stays_loading() {
    let mut game = Game::new();
    game.finish_loading(Err(GameConfigLoadError::ReadError));
    assert_eq!(game.state, GameState::Loading);
    assert!(game.player.is_none());
    assert!(game.flowers.is_empty());
    assert!(!game.tick(1000));
    assert_eq!(game.state, GameState::Loading);
}

#[test]
fn entering_gaming_spawns_player_and_pickups() {
    let game = started(scenario_config());
    assert_eq!(game.state, GameState::Gaming);
    let player = game.player.unwrap();
    assert_eq!(player.position, Position { x: 0, y: 0 });
    assert_eq!(player.flowers.0, 0);
    assert_eq!(game.flowers.len(), 50);
    for f in &game.flowers {
        assert!(-1_024_000 <= f.position.x && f.position.x <= 1_024_000);
        assert!(-1_024_000 <= f.position.y && f.position.y <= 1_024_000);
    }
    assert_eq!(game.timer.unwrap().remaining_millis(), 60_000);
    let hud = game.hud.as_ref().unwrap();
    assert_eq!(hud.flower_count_text, "0 Pickups");
    assert_eq!(hud.game_timer_text, "Ready...");
}

#[test]
fn one_second_right_moves_to_25_and_captures() {
    let mut game = started(scenario_config());
    arrange(&mut game, Position { x: 25_000, y: 0 });
    game.input.right = true;
    assert!(!game.tick(1000));
    let player = game.player.unwrap();
    assert_eq!(player.position, Position { x: 25_000, y: 0 });
    assert_eq!(player.flowers.0, 1);
    assert_eq!(game.flowers.len(), 49);
    assert!(game.flowers.iter().all(|f: &Enemy| f.id != 0));
    let hud = game.hud.as_ref().unwrap();
    assert_eq!(hud.flower_count_text, "1 Pickups");
    assert_eq!(hud.game_timer_text, "59.0s");
    assert_eq!(game.camera, Position { x: 25_000, y: 0 });
}

#[test]
fn pickups_captured_over_several_ticks_add_up() {
    let mut game = started(scenario_config());
    for f in game.flowers.iter_mut() {
        f.position = Position { x: 1_000_000, y: 1_000_000 };
    }
    game.flowers[0].position = Position { x: 25_000, y: 0 };
    game.flowers[1].position = Position { x: 30_000, y: 5_000 };
    game.flowers[2].position = Position { x: 75_000, y: 0 };
    game.input.right = true;
    assert!(!game.tick(1000));
    assert_eq!(game.player.unwrap().flowers.0, 2);
    assert!(!game.tick(2000));
    let player = game.player.unwrap();
    assert_eq!(player.position, Position { x: 75_000, y: 0 });
    assert_eq!(player.flowers.0, 3);
    assert_eq!(game.flowers.len(), 47);
    assert_eq!(player.flowers.0 as usize + game.flowers.len(), 50);
}

#[test]
fn timer_expiry_ends_the_session() {
    let config = GameConfigFile::new(25 * UNIT, 1024 * UNIT, 50, 20 * UNIT, 50).unwrap();
    let mut game = started(config);
    arrange(&mut game, Position { x: 0, y: 10_000 });
    assert!(game.tick(1000));
    assert_eq!(game.state, GameState::GameOver);
    assert!(game.player.is_none());
    assert!(game.flowers.is_empty());
    assert!(game.timer.is_none());
    assert!(game.hud.is_none());
    let ui = game.game_over_ui.as_ref().unwrap();
    assert_eq!(ui.score, 1);
    assert_eq!(ui.title, "Game Over");
    assert_eq!(ui.message, "1 flowers collected");
    // later ticks do nothing
    assert!(!game.tick(1000));
    assert_eq!(game.state, GameState::GameOver);
}

#[test]
fn retry_starts_a_fresh_session() {
    let config = GameConfigFile::new(25 * UNIT, 1024 * UNIT, 50, 20 * UNIT, 1000).unwrap();
    let mut game = started(config);
    arrange(&mut game, Position { x: 0, y: 0 });
    let first: Vec<Position> = game.flowers.iter().map(|f| f.position).collect();
    assert!(game.tick(1000));
    assert!(!game.handle_button_interaction(GameOverButtonChoice::Retry));
    assert_eq!(game.state, GameState::Gaming);
    let player = game.player.unwrap();
    assert_eq!(player.flowers.0, 0);
    assert_eq!(player.position, Position { x: 0, y: 0 });
    assert_eq!(game.flowers.len(), 50);
    let second: Vec<Position> = game.flowers.iter().map(|f| f.position).collect();
    assert_ne!(first, second);
    assert!(game.game_over_ui.is_none());
    assert_eq!(game.timer.unwrap().remaining_millis(), 1000);
}

#[test]
fn exit_is_only_offered_after_the_match() {
    let config = GameConfigFile::new(25 * UNIT, 1024 * UNIT, 50, 20 * UNIT, 1000).unwrap();
    let mut game = started(config);
    assert!(!game.handle_button_interaction(GameOverButtonChoice::Exit));
    assert_eq!(game.state, GameState::Gaming);
    assert!(game.tick(1500));
    assert!(game.handle_button_interaction(GameOverButtonChoice::Exit));
    assert_eq!(game.state, GameState::GameOver);
}

#[test]
fn texts_are_formatted() {
    assert_eq!(decimal_string(0), "0");
    assert_eq!(decimal_string(7), "7");
    assert_eq!(decimal_string(1200), "1200");
    assert_eq!(decimal_string(u64::MAX), "18446744073709551615");
    assert_eq!(flower_count_string(12), "12 Pickups");
    assert_eq!(game_timer_string(60_000), "60.0s");
    assert_eq!(game_timer_string(59_949), "59.9s");
    assert_eq!(game_timer_string(59_950), "60.0s");
    assert_eq!(game_timer_string(50), "0.1s");
    assert_eq!(game_timer_string(49), "0.0s");
    assert_eq!(game_timer_string(0), "0.0s");
    assert_eq!(summary_string(3), "3 flowers collected");
}

#[test]
fn hud_redraws_only_on_change() {
    let mut hud = spawn_hud();
    assert!(!update_flower_count(&mut hud, 0));
    assert!(update_flower_count(&mut hud, 1));
    assert_eq!(hud.flower_count_text, "1 Pickups");
    assert!(!update_flower_count(&mut hud, 1));
    assert!(update_game_timer(&mut hud, 1234));
    assert_eq!(hud.game_timer_text, "1.2s");
    assert!(!update_game_timer(&mut hud, 1240));
    let ui = spawn_game_over_ui(9);
    assert_eq!(ui.message, "9 flowers collected");
}

#[test]
fn a_short_frame_still_moves_the_player() {
    let mut game = started(scenario_config());
    arrange(&mut game, Position { x: 1_000_000, y: 1_000_000 });
    game.input.right = true;
    assert!(!game.tick(16));
    // 25 units per second for 16 ms is 0.4 of a unit
    assert_eq!(game.player.unwrap().position, Position { x: 400, y: 0 });
    game.input.up = true;
    assert!(!game.tick(16));
    // 0.4 / sqrt(2) = 0.2828 of a unit on each axis
    assert_eq!(game.player.unwrap().position, Position { x: 682, y: 282 });
}
