use referee::codec::{
    notification_body, notification_subject, serialize_proof_input, settlement_payload,
};
use referee::engine::ProofInput;
use referee::game::{GameState, START_FEN};
use referee::rules::{board_status, check_chained_claim};

const AFTER_E5: &str = "rnbqkbnr/pppp1ppp/8/4p3/8/5P2/PPPPP1PP/RNBQKBNR w KQkq - 0 2";
const AFTER_G4: &str = "rnbqkbnr/pppp1ppp/8/4p3/6P1/5P2/PPPPP2P/RNBQKBNR b KQkq - 0 2";
const AFTER_QH4: &str = "rnb1kbnr/pppp1ppp/8/4p3/6Pq/5P2/PPPPP2P/RNBQKBNR w KQkq - 1 3";

#[test]
fn board_status_classifies_positions() {
    assert!(matches!(board_status(START_FEN), GameState::InProgress));
    assert!(matches!(board_status(AFTER_QH4), GameState::Checkmate));
    assert!(matches!(board_status("7k/5Q2/6K1/8/8/8/8/8 b - - 0 1"), GameState::Stalemate));
    assert!(matches!(board_status("K7/8/k7/8/8/8/8/8 w - - 0 1"), GameState::Draw));
    assert!(matches!(board_status("not a board"), GameState::InProgress));
}

#[test]
fn chained_claim_is_accepted_when_continuous_and_mating() {
    assert!(check_chained_claim("Qh4#", AFTER_G4, "g4", AFTER_E5));
}

#[test]
fn chained_claim_is_rejected_without_continuity() {
    // the claimed board mates under Qh4#, but g4 on the prior board does
    // not land on it: the fullmove counter was doctored
    let doctored = "rnbqkbnr/pppp1ppp/8/4p3/6P1/5P2/PPPPP2P/RNBQKBNR b KQkq - 0 9";
    assert!(matches!(board_status(doctored), GameState::InProgress));
    assert!(!check_chained_claim("Qh4#", doctored, "g4", AFTER_E5));
}

#[test]
fn chained_claim_is_rejected_without_mate() {
    // continuity holds but the claimed move does not mate
    assert!(!check_chained_claim("h4", AFTER_G4, "g4", AFTER_E5));
    // and an illegal claimed move never mates
    assert!(!check_chained_claim("Qh9#", AFTER_G4, "g4", AFTER_E5));
}

#[test]
fn proof_input_serializes_as_the_four_string_array() {
    let pi = ProofInput {
        claimed_move: String::from("Qh4#"),
        claimed_board: String::from(AFTER_G4),
        prev_move: String::from("g4"),
        prev_board: String::from(AFTER_E5),
    };
    let expected = format!("[\"Qh4#\",\"{}\",\"g4\",\"{}\"]", AFTER_G4, AFTER_E5);
    assert_eq!(serialize_proof_input(&pi).unwrap(), expected.as_bytes());
    assert_eq!(
        settlement_payload(&pi).unwrap(),
        "WyJRaDQjIiwicm5icWtibnIvcHBwcDFwcHAvOC80cDMvNlAxLzVQMi9QUFBQUDJQL1JOQlFLQk5SIGIgS1FrcSAtIDAgMiIsImc0Iiwicm5icWtibnIvcHBwcDFwcHAvOC80cDMvOC81UDIvUFBQUFAxUFAvUk5CUUtCTlIgdyBLUWtxIC0gMCAyIl0="
    );
}

#[test]
fn proof_input_with_a_quote_is_refused() {
    let pi = ProofInput {
        claimed_move: String::from("Qh4\"#"),
        claimed_board: String::from(AFTER_G4),
        prev_move: String::from("g4"),
        prev_board: String::from(AFTER_E5),
    };
    assert!(serialize_proof_input(&pi).is_none());
    assert!(settlement_payload(&pi).is_none());
}

#[test]
fn notification_renders_the_board_link_and_fen() {
    let after_e4 = "rnbqkbnr/pppppppp/8/8/4P3/8/PPPP1PPP/RNBQKBNR b KQkq - 0 1";
    let body = notification_body("alice@example.com", "e4", after_e4);
    let expected = format!(
        "<body><p>alice@example.com played <b>e4</p><p><img src=\"https://fen2image.chessvision.ai/{}.png\"></p><p>Current FEN (to pass in next mail): {}</p></body>",
        "rnbqkbnr%2Fpppppppp%2F8%2F8%2F4P3%2F8%2FPPPP1PPP%2FRNBQKBNR%20b%20KQkq%20-%200%201",
        after_e4,
    );
    assert_eq!(body, expected);
    assert_eq!(notification_subject("alice@example.com"), "New valid move from alice@example.com");
}
