use glodget::random::{update_game_resources, GameSeed, GLOD_QUANTITY};

#[test]
fn same_seed_same_layout() {
    let s = GameSeed("replay".to_string());
    let a = update_game_resources(&s);
    let b = update_game_resources(&s.clone());
    assert_eq!(a, b);
    assert_eq!(a.glods.len(), GLOD_QUANTITY);
}

#[test]
fn different_seeds_differ() {
    let a = update_game_resources(&GameSeed("abc".to_string()));
    let b = update_game_resources(&GameSeed("abd".to_string()));
    assert_ne!(a, b);
}

#[test]
fn layout_positions_in_their_zones() {
    for seed in ["", "x", "GlodGET", "12345678", "zzzzzzzzzzzz"] {
        let l = update_game_resources(&GameSeed(seed.to_string()));
        assert!((-270..-50).contains(&l.friend.x) && (-270..-50).contains(&l.friend.y));
        assert!((50..270).contains(&l.foe.x) && (50..270).contains(&l.foe.y));
        for g in l.glods.iter() {
            assert!((-318..318).contains(&g.x) && (-318..318).contains(&g.y));
        }
    }
}

#[test]
fn random_seed_is_eight_alphanumerics() {
    let s = GameSeed::random();
    assert_eq!(s.0.chars().count(), 8);
    assert!(s.0.chars().all(|c| c.is_ascii_alphanumeric()));
    let d = GameSeed::default();
    assert_eq!(d.0.len(), 8);
}

#[test]
fn seed_editing() {
    let mut s = GameSeed(String::new());
    s.pop();
    assert_eq!(s.0, "");
    s.push('a');
    s.push('b');
    s.pop();
    s.push('c');
    assert_eq!(s.0, "ac");
}
