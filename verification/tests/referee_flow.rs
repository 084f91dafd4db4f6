use referee::engine::{process_message, DropReason, Outcome};
use referee::game::GameState;
use referee::rules::check_chained_claim;
use referee::store::DbManager;

const AFTER_E4: &str = "rnbqkbnr/pppppppp/8/8/4P3/8/PPPP1PPP/RNBQKBNR b KQkq - 0 1";
const AFTER_F3: &str = "rnbqkbnr/pppppppp/8/8/8/5P2/PPPPP1PP/RNBQKBNR b KQkq - 0 1";
const AFTER_E5: &str = "rnbqkbnr/pppp1ppp/8/4p3/8/5P2/PPPPP1PP/RNBQKBNR w KQkq - 0 2";
const AFTER_G4: &str = "rnbqkbnr/pppp1ppp/8/4p3/6P1/5P2/PPPPP2P/RNBQKBNR b KQkq - 0 2";
const AFTER_QH4: &str = "rnb1kbnr/pppp1ppp/8/4p3/6Pq/5P2/PPPPP2P/RNBQKBNR w KQkq - 1 3";

fn mail(from: &str, cc: &str, body: &str) -> Vec<u8> {
    format!(
        "From: {}\r\nTo: Referee <ref@example.com>\r\nCc: {}\r\nSubject: move\r\nMIME-Version: 1.0\r\nContent-Type: multipart/alternative; boundary=\"sep\"\r\n\r\n--sep\r\nContent-Type: text/plain\r\n\r\n{}\r\n--sep--\r\n",
        from, cc, body,
    )
    .into_bytes()
}

const ALICE: &str = "alice@example.com";
const BOB: &str = "bob@example.com";

#[test]
fn first_valid_move_opens_the_game_and_stores_evidence() {
    let mut db = DbManager::new();
    let raw = mail(ALICE, BOB, "MOVE: e4\r\nNEW GAME: bob@example.com\r\n");
    match process_message(&mut db, &raw) {
        Outcome::Reply { game_id, to, cc, chess_move, fen } => {
            assert_eq!(to, BOB);
            assert_eq!(cc, ALICE);
            assert_eq!(chess_move, "e4");
            assert_eq!(fen, AFTER_E4);
            let g = db.get_game(&game_id).unwrap();
            assert_eq!(g.position.fen, AFTER_E4);
            assert!(matches!(g.state, GameState::InProgress));
            assert_eq!(db.get_email(&game_id).unwrap().as_slice(), raw.as_slice());
            assert_eq!(db.get_game_id(ALICE, BOB), game_id);
        },
        _ => panic!("expected a continuation reply"),
    }
}

#[test]
fn a_mate_sequence_settles_from_the_prior_evidence() {
    let mut db = DbManager::new();
    let m1 = mail(ALICE, BOB, "MOVE: f3\r\nNEW GAME: bob@example.com\r\n");
    let r1 = process_message(&mut db, &m1);
    assert!(matches!(r1, Outcome::Reply { .. }));
    let m2 = mail(BOB, ALICE, &format!("MOVE: e5\r\nFEN: {}\r\n", AFTER_F3));
    let r2 = process_message(&mut db, &m2);
    assert!(matches!(r2, Outcome::Reply { .. }));
    let m3 = mail(ALICE, BOB, &format!("MOVE: g4\r\nFEN: {}\r\n", AFTER_E5));
    let game_id = match process_message(&mut db, &m3) {
        Outcome::Reply { game_id, fen, .. } => {
            assert_eq!(fen, AFTER_G4);
            game_id
        },
        _ => panic!("expected a continuation reply"),
    };
    // the evidence slot now holds the g4 message
    assert_eq!(db.get_email(&game_id).unwrap().as_slice(), m3.as_slice());

    let m4 = mail(BOB, ALICE, &format!("MOVE: Qh4#\r\nFEN: {}\r\n", AFTER_G4));
    match process_message(&mut db, &m4) {
        Outcome::Settle { game_id: gid, input } => {
            assert_eq!(gid, game_id);
            assert_eq!(input.claimed_move, "Qh4#");
            assert_eq!(input.claimed_board, AFTER_G4);
            assert_eq!(input.prev_move, "g4");
            assert_eq!(input.prev_board, AFTER_E5);
            // the settlement program accepts exactly this chained input
            assert!(check_chained_claim(
                &input.claimed_move,
                &input.claimed_board,
                &input.prev_move,
                &input.prev_board,
            ));
            // a replay from the stored evidence re-derives the same input
            let replayed =
                referee::engine::replay_settlement_input(&db, &gid, &m4).unwrap();
            assert_eq!(replayed.claimed_move, input.claimed_move);
            assert_eq!(replayed.claimed_board, input.claimed_board);
            assert_eq!(replayed.prev_move, input.prev_move);
            assert_eq!(replayed.prev_board, input.prev_board);
            // the game is recorded as mated until settlement succeeds
            let g = db.get_game(&gid).unwrap();
            assert_eq!(g.position.fen, AFTER_QH4);
            assert!(matches!(g.state, GameState::Checkmate));
            // on a successful broadcast the game is finalized
            db.finalize_game(&gid);
            assert!(db.get_game(&gid).is_none());
            assert!(db.get_email(&gid).is_none());
            assert_eq!(db.get_game_id(ALICE, BOB), gid);
        },
        _ => panic!("expected a settlement"),
    }
}

#[test]
fn a_mate_claim_without_evidence_cannot_chain() {
    let mut db = DbManager::new();
    let m1 = mail(ALICE, BOB, "MOVE: f3\r\nNEW GAME: bob@example.com\r\n");
    assert!(matches!(process_message(&mut db, &m1), Outcome::Reply { .. }));
    let id = db.get_game_id(ALICE, BOB);
    db.delete_email(&id);
    let m2 = mail(BOB, ALICE, &format!("MOVE: Qh4#\r\nFEN: {}\r\n", AFTER_G4));
    match process_message(&mut db, &m2) {
        Outcome::TerminalUnchained { game_id } => {
            assert_eq!(game_id, id);
            let g = db.get_game(&game_id).unwrap();
            assert!(matches!(g.state, GameState::Checkmate));
        },
        _ => panic!("expected an unchained terminal claim"),
    }
}

#[test]
fn malformed_messages_are_dropped_without_state_change() {
    let mut db = DbManager::new();
    // no text subpart at all
    let flat = b"From: a@x.org\r\nCc: b@y.org\r\n\r\nMOVE: e4\r\n".to_vec();
    assert!(matches!(process_message(&mut db, &flat), Outcome::Drop(DropReason::NoBody)));
    // two movers in From
    let two_from = mail("a@x.org, c@z.org", "b@y.org", "MOVE: e4\r\nNEW GAME: b@y.org\r\n");
    assert!(matches!(process_message(&mut db, &two_from), Outcome::Drop(DropReason::BadHeaders)));
    // no MOVE field
    let no_move = mail(ALICE, BOB, "FEN: whatever\r\n");
    assert!(matches!(process_message(&mut db, &no_move), Outcome::Drop(DropReason::MissingMove)));
    // neither a fresh-game marker nor a FEN
    let no_board = mail(ALICE, BOB, "MOVE: e4\r\n");
    assert!(matches!(process_message(&mut db, &no_board), Outcome::Drop(DropReason::MissingBoard)));
    // an illegal move on a fresh board
    let illegal = mail(ALICE, BOB, "MOVE: e5\r\nNEW GAME: bob@example.com\r\n");
    assert!(matches!(process_message(&mut db, &illegal), Outcome::Drop(DropReason::RuleViolation)));
    // a move for a pair with no live game and no marker
    let orphan = mail(ALICE, BOB, &format!("MOVE: e5\r\nFEN: {}\r\n", AFTER_E4));
    assert!(matches!(process_message(&mut db, &orphan), Outcome::Drop(DropReason::NoSuchGame)));
    // none of it touched the store: not even a matchup was minted
    assert!(db.find_game_id(ALICE, BOB).is_none());
}

#[test]
fn a_stalemating_move_is_recorded_only() {
    let mut db = DbManager::new();
    // a position one queen move away from stalemate
    let before = "7k/8/6K1/8/8/8/8/5Q2 w - - 0 1";
    let m1 = mail(ALICE, BOB, "MOVE: e4\r\nNEW GAME: bob@example.com\r\n");
    assert!(matches!(process_message(&mut db, &m1), Outcome::Reply { .. }));
    let m2 = mail(BOB, ALICE, &format!("MOVE: Qf7\r\nFEN: {}\r\n", before));
    match process_message(&mut db, &m2) {
        Outcome::Recorded { game_id, state } => {
            assert!(matches!(state, GameState::Stalemate));
            let g = db.get_game(&game_id).unwrap();
            assert!(matches!(g.state, GameState::Stalemate));
            // no evidence was stored for it
            assert_ne!(db.get_email(&game_id).unwrap().as_slice(), m2.as_slice());
        },
        _ => panic!("expected a recorded end"),
    }
}
