use glodget::random::{update_game_resources, GameSeed};
use glodget::state::{reset_score, update_high_score, AppState, GameState, HighScore, Score};
use glodget::unit::{EnemyState, WeaponSlot};
use glodget::weapon::{Explosion, TorpedoOrder};
use glodget::world::{Contact, PlayerContact, World};

fn playing(seed: &str) -> World {
    let mut w = World::new();
    w.main_menu_key_input(true, false);
    assert_eq!(w.app_state, AppState::InGame);
    w.next_game_with_seed(GameSeed(seed.to_string()));
    assert_eq!(w.game_state, GameState::SampleRandom);
    w.start_game();
    assert_eq!(w.game_state, GameState::Game);
    w
}

#[test]
fn start_up_state() {
    let w = World::new();
    assert_eq!(w.app_state, AppState::MainMenu);
    assert_eq!(w.game_state, GameState::OutOfGame);
    assert_eq!(w.enemy_state, EnemyState::Undefined);
    assert_eq!((w.score, w.high_score), (Score(0), HighScore(0)));
    assert_eq!(w.seed.0.len(), 8);
    assert!(!w.player && !w.enemy && w.glods.is_empty());
}

#[test]
fn new_game_spawns_round_from_seed() {
    let w = playing("fresh");
    assert_eq!(w.seed, GameSeed("fresh".to_string()));
    assert_eq!(w.layout, update_game_resources(&GameSeed("fresh".to_string())));
    assert_eq!(w.glods.len(), 50);
    for (k, g) in w.glods.iter().enumerate() {
        assert_eq!(g.id, k);
        assert_eq!(g.pos, w.layout.glods[k]);
    }
    assert!(w.player && w.enemy && w.friendly_base && w.enemy_base);
    assert_eq!(w.enemy_state, EnemyState::PreStart);
    assert_eq!(w.player_mass, 3000);
    assert_eq!(
        w.player_slots,
        vec![WeaponSlot { id: 0, forward: 4, lateral: 10 }, WeaponSlot { id: 1, forward: 4, lateral: -10 }]
    );
}

#[test]
fn typed_seed_is_kept() {
    let mut w = World::new();
    w.main_menu_key_input(false, true);
    assert_eq!(w.app_state, AppState::SeedMenu);
    w.seed = GameSeed(String::new());
    w.seed_menu_key_input(&vec!['a', 'b', 'c'], true, false);
    assert_eq!(w.seed.0, "ab");
    assert_eq!(w.app_state, AppState::SeedMenu);
    w.seed_menu_key_input(&vec!['z'], false, true);
    assert_eq!(w.app_state, AppState::InGame);
    w.next_game_with_seed(GameSeed("other".to_string()));
    assert_eq!(w.seed.0, "abz");
    assert_eq!(w.layout, update_game_resources(&GameSeed("abz".to_string())));
}

#[test]
fn main_menu_new_game_draws_seed() {
    let mut w = World::new();
    w.main_menu_key_input(true, false);
    w.next_game();
    assert_eq!(w.game_state, GameState::SampleRandom);
    assert_eq!(w.seed.0.len(), 8);
    assert_eq!(w.layout, update_game_resources(&w.seed.clone()));
}

#[test]
fn idle_outside_the_game_screen() {
    let mut w = World::new();
    w.next_game_with_seed(GameSeed("x".to_string()));
    assert_eq!(w.game_state, GameState::OutOfGame);
    w.start_game();
    assert_eq!(w.game_state, GameState::OutOfGame);
}

#[test]
fn pickup_contact_scores_and_grows() {
    let mut w = playing("pickups");
    w.handle_player_contacts(&vec![PlayerContact::Started(Contact::Glod(3))]);
    assert_eq!(w.score, Score(1));
    assert_eq!(w.player_mass, 5000);
    assert_eq!(w.glods.len(), 49);
    assert!(w.glods.iter().all(|g| g.id != 3));
    // The same pickup again: it is gone, nothing changes.
    w.handle_player_contacts(&vec![PlayerContact::Started(Contact::Glod(3))]);
    assert_eq!(w.score, Score(1));
    assert_eq!(w.player_mass, 5000);
    w.handle_player_contacts(&vec![
        PlayerContact::Started(Contact::Glod(0)),
        PlayerContact::Stopped(Contact::Glod(0)),
        PlayerContact::Started(Contact::Glod(49)),
    ]);
    assert_eq!(w.score, Score(3));
    assert_eq!(w.player_mass, 9000);
    assert_eq!(w.glods.len(), 47);
}

#[test]
fn release_latch() {
    let mut w = playing("latch");
    assert_eq!(w.enemy_state, EnemyState::PreStart);
    w.handle_player_contacts(&vec![
        PlayerContact::Started(Contact::Base),
        PlayerContact::Started(Contact::Base),
    ]);
    assert_eq!(w.enemy_state, EnemyState::PreStart);
    assert_eq!(w.game_state, GameState::Game);
    w.handle_player_contacts(&vec![PlayerContact::Stopped(Contact::Base)]);
    assert_eq!(w.enemy_state, EnemyState::Released);
    assert!(!w.enemy_base);
    w.handle_player_contacts(&vec![PlayerContact::Stopped(Contact::Base), PlayerContact::Started(Contact::Other)]);
    assert_eq!(w.enemy_state, EnemyState::Released);
}

#[test]
fn return_to_base_after_release_wins() {
    let mut w = playing("win");
    w.handle_player_contacts(&vec![
        PlayerContact::Started(Contact::Glod(1)),
        PlayerContact::Stopped(Contact::Base),
        PlayerContact::Started(Contact::Glod(2)),
        PlayerContact::Started(Contact::Base),
    ]);
    assert_eq!(w.game_state, GameState::Victory);
    assert_eq!(w.score, Score(2));
    assert_eq!(w.high_score, HighScore(2));
    assert!(!w.player && !w.enemy && !w.friendly_base && !w.enemy_base);
    assert!(w.glods.is_empty() && w.torpedoes.is_empty());
    assert_eq!(w.enemy_state, EnemyState::Undefined);
}

#[test]
fn enemy_contact_loses_and_keeps_high_score() {
    let mut w = playing("lose");
    w.handle_player_contacts(&vec![
        PlayerContact::Started(Contact::Glod(7)),
        PlayerContact::Started(Contact::Enemy),
        PlayerContact::Started(Contact::Glod(8)),
    ]);
    assert_eq!(w.game_state, GameState::GameOver);
    assert_eq!(w.score, Score(2));
    assert_eq!(w.high_score, HighScore(0));
    assert!(!w.player && w.glods.is_empty());
}

#[test]
fn first_ending_asked_for_stands() {
    let mut w = playing("both");
    w.handle_player_contacts(&vec![
        PlayerContact::Stopped(Contact::Base),
        PlayerContact::Started(Contact::Enemy),
        PlayerContact::Started(Contact::Base),
    ]);
    assert_eq!(w.game_state, GameState::GameOver);
    assert_eq!(w.high_score, HighScore(0));
}

#[test]
fn score_resets_each_round_high_score_only_rises_on_wins() {
    let mut w = playing("rounds");
    let win = vec![
        PlayerContact::Started(Contact::Glod(1)),
        PlayerContact::Started(Contact::Glod(2)),
        PlayerContact::Started(Contact::Glod(3)),
        PlayerContact::Stopped(Contact::Base),
        PlayerContact::Started(Contact::Base),
    ];
    w.handle_player_contacts(&win);
    assert_eq!(w.high_score, HighScore(3));
    // Replay the same map.
    w.end_game_key_input(true, false, false);
    assert_eq!(w.game_state, GameState::Game);
    assert_eq!(w.score, Score(0));
    assert_eq!(w.glods.len(), 50);
    assert_eq!(w.enemy_state, EnemyState::PreStart);
    let mut many = Vec::new();
    for k in 0..10 {
        many.push(PlayerContact::Started(Contact::Glod(k)));
    }
    many.push(PlayerContact::Started(Contact::Enemy));
    w.handle_player_contacts(&many);
    assert_eq!(w.game_state, GameState::GameOver);
    assert_eq!(w.score, Score(10));
    assert_eq!(w.high_score, HighScore(3));
    w.end_game_key_input(true, false, false);
    assert_eq!(w.score, Score(0));
    w.handle_player_contacts(&vec![
        PlayerContact::Started(Contact::Glod(4)),
        PlayerContact::Stopped(Contact::Base),
        PlayerContact::Started(Contact::Base),
    ]);
    assert_eq!(w.game_state, GameState::Victory);
    assert_eq!(w.high_score, HighScore(3));
}

#[test]
fn end_screen_keys() {
    let mut w = playing("keys");
    let layout = w.layout.clone();
    w.map_edge(0, 400);
    assert_eq!(w.game_state, GameState::GameOver);
    w.end_game_key_input(false, false, true);
    assert_eq!(w.game_state, GameState::OutOfGame);
    assert_eq!(w.app_state, AppState::InGame);
    w.next_game_with_seed(GameSeed("newmap".to_string()));
    assert_eq!(w.seed.0, "newmap");
    assert_ne!(w.layout, layout);
    w.start_game();
    w.map_edge(-343, 0);
    assert_eq!(w.game_state, GameState::GameOver);
    w.end_game_key_input(false, true, false);
    assert_eq!(w.app_state, AppState::MainMenu);
    assert_eq!(w.game_state, GameState::OutOfGame);
}

#[test]
fn map_edge_inside_keeps_playing() {
    let mut w = playing("edge");
    w.map_edge(342, -342);
    assert_eq!(w.game_state, GameState::Game);
}

#[test]
fn firing_uses_carried_weapons() {
    let mut w = playing("fire");
    assert_eq!(w.fire(false), None);
    assert_eq!(w.fire(true), Some(WeaponSlot { id: 1, forward: 4, lateral: -10 }));
    assert_eq!(w.fire(true), Some(WeaponSlot { id: 0, forward: 4, lateral: 10 }));
    assert_eq!(w.fire(true), None);
    assert_eq!(w.torpedoes.len(), 2);
    let orders = w.tick_weapons(1000);
    assert_eq!(orders.len(), 2);
    assert!(matches!(orders[0], (1, TorpedoOrder::Thrust(_))));
    assert_eq!(w.torpedoes.len(), 2);
    assert_eq!(w.torpedo_contact(0), Some(Explosion { radius: 50, origin_impulse: 3500 }));
    assert_eq!(w.torpedo_contact(0), None);
    assert_eq!(w.torpedoes.len(), 1);
    let orders = w.tick_weapons(1500);
    assert_eq!(orders, vec![(1, TorpedoOrder::Explode(Explosion { radius: 50, origin_impulse: 3500 }))]);
    assert!(w.torpedoes.is_empty());
}

#[test]
fn round_end_clears_weapons() {
    let mut w = playing("clear");
    w.fire(true);
    w.handle_player_contacts(&vec![PlayerContact::Started(Contact::Enemy)]);
    assert!(w.torpedoes.is_empty() && w.player_slots.is_empty());
    assert_eq!(w.tick_weapons(10), vec![]);
    assert_eq!(w.fire(true), None);
}

#[test]
fn score_helpers() {
    let mut s = Score(9);
    reset_score(&mut s);
    assert_eq!(s, Score(0));
    let mut h = HighScore(4);
    update_high_score(&Score(3), &mut h);
    assert_eq!(h, HighScore(4));
    update_high_score(&Score(6), &mut h);
    assert_eq!(h, HighScore(6));
}
