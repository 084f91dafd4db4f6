use referee::game::{Game, GameState, Player, START_FEN};
use referee::store::DbManager;

#[test]
fn new_game_starts_at_the_start_position() {
    let g = Game::new("alice@example.com", "bob@example.com");
    assert_eq!(g.position.fen, START_FEN);
    assert_eq!(g.players[0].email, "alice@example.com");
    assert_eq!(g.players[1].email, "bob@example.com");
    assert!(!g.players[0].is_next);
    assert!(!g.players[1].is_next);
    assert!(matches!(g.state, GameState::InProgress));
}

#[test]
fn new_turn_flips_only_the_flag() {
    let mut p = Player { email: String::from("alice@example.com"), color: referee::game::Color::White, is_next: false };
    p.new_turn();
    assert!(p.is_next);
    p.new_turn();
    assert!(!p.is_next);
    assert_eq!(p.email, "alice@example.com");
}

#[test]
fn update_advances_position_and_flags() {
    let mut g = Game::new("alice@example.com", "bob@example.com");
    g.update(String::from("8/8/8/8/8/8/8/K1k5 w - - 0 9"), GameState::Draw);
    assert_eq!(g.position.fen, "8/8/8/8/8/8/8/K1k5 w - - 0 9");
    assert!(g.players[0].is_next);
    assert!(g.players[1].is_next);
    assert!(matches!(g.state, GameState::Draw));
}

#[test]
fn matchup_is_order_independent_and_idempotent() {
    let mut db = DbManager::new();
    let id_ab = db.get_game_id("a@x.org", "b@y.org");
    let id_ba = db.get_game_id("b@y.org", "a@x.org");
    let id_ab2 = db.get_game_id("a@x.org", "b@y.org");
    assert_eq!(id_ab, id_ba);
    assert_eq!(id_ab, id_ab2);
    // a minted identifier is a rendered uuid
    assert_eq!(id_ab.len(), 36);
    let other = db.get_game_id("a@x.org", "c@z.org");
    assert_ne!(id_ab, other);
}

#[test]
fn store_game_overwrites_and_loads() {
    let mut db = DbManager::new();
    let id = db.get_game_id("a@x.org", "b@y.org");
    db.store_game(&id, Game::new("a@x.org", "b@y.org"));
    assert_eq!(db.get_game(&id).unwrap().position.fen, START_FEN);
    let mut g2 = Game::new("a@x.org", "b@y.org");
    g2.update(String::from("8/8/8/8/8/8/8/K1k5 w - - 0 9"), GameState::InProgress);
    db.store_game(&id, g2);
    assert_eq!(db.get_game(&id).unwrap().position.fen, "8/8/8/8/8/8/8/K1k5 w - - 0 9");
    assert!(db.get_game("no-such-id").is_none());
}

#[test]
fn evidence_is_a_single_slot() {
    let mut db = DbManager::new();
    let id = db.get_game_id("a@x.org", "b@y.org");
    db.store_email(&id, b"first message");
    db.store_email(&id, b"second message");
    assert_eq!(db.get_email(&id).unwrap().as_slice(), b"second message");
    db.delete_email(&id);
    assert!(db.get_email(&id).is_none());
}

#[test]
fn delete_game_keeps_matchup_and_evidence() {
    let mut db = DbManager::new();
    let id = db.get_game_id("a@x.org", "b@y.org");
    db.store_game(&id, Game::new("a@x.org", "b@y.org"));
    db.store_email(&id, b"evidence");
    db.delete_game(&id);
    assert!(db.get_game(&id).is_none());
    assert!(db.get_email(&id).is_some());
    assert_eq!(db.get_game_id("a@x.org", "b@y.org"), id);
}

#[test]
fn finalize_clears_game_and_evidence_but_not_matchup() {
    let mut db = DbManager::new();
    let id = db.get_game_id("a@x.org", "b@y.org");
    db.store_game(&id, Game::new("a@x.org", "b@y.org"));
    db.store_email(&id, b"evidence");
    db.finalize_game(&id);
    assert!(db.get_game(&id).is_none());
    assert!(db.get_email(&id).is_none());
    assert_eq!(db.get_game_id("a@x.org", "b@y.org"), id);
}
