use referee::mail::parse_mail_body;
use referee::parse::find_field;
use referee::settle::extract_txhash;

#[test]
fn find_field_reads_and_trims_the_first_match() {
    assert_eq!(find_field("MOVE: e4\n", "MOVE:").unwrap(), "e4");
    assert_eq!(find_field("MOVE: \t e4 \t\r\n", "MOVE:").unwrap(), "e4");
    assert_eq!(find_field("greeting\nMOVE: Nf3\nFEN: x\n", "MOVE:").unwrap(), "Nf3");
    assert_eq!(find_field("MOVE: a\nMOVE: b\n", "MOVE:").unwrap(), "a");
    assert_eq!(find_field("MOVE:e4", "MOVE:").unwrap(), "e4");
    assert!(find_field("FEN: something\n", "MOVE:").is_none());
}

#[test]
fn find_field_wants_the_key_at_a_line_start() {
    assert!(find_field("XMOVE: e4\n", "MOVE:").is_none());
    assert_eq!(find_field("XMOVE: z\nMOVE: a\n", "MOVE:").unwrap(), "a");
}

#[test]
fn parse_mail_body_reads_all_three_fields() {
    let body = "hello\nMOVE: e4\nFEN: 8/8/8/8/8/8/8/K1k5 w - - 0 9\nNEW GAME: bob@example.com\n";
    let parsed = parse_mail_body(body);
    assert_eq!(parsed.chess_move.unwrap(), "e4");
    assert_eq!(parsed.fen.unwrap(), "8/8/8/8/8/8/8/K1k5 w - - 0 9");
    assert!(parsed.new_game);
}

#[test]
fn new_game_marker_needs_an_address_like_value() {
    let parsed = parse_mail_body("MOVE: e4\nNEW GAME: nonsense\n");
    assert!(!parsed.new_game);
    let parsed = parse_mail_body("MOVE: e4\nNEW GAME: @\n");
    assert!(!parsed.new_game);
    let parsed = parse_mail_body("MOVE: e4\nNEW GAME: b@c\n");
    assert!(parsed.new_game);
    // the address must be one unbroken token
    let parsed = parse_mail_body("MOVE: e4\nNEW GAME: a b@c\n");
    assert!(!parsed.new_game);
    let parsed = parse_mail_body("MOVE: e4\nNEW GAME: b@c please\n");
    assert!(parsed.new_game);
}

#[test]
fn missing_move_field_is_reported_missing() {
    let parsed = parse_mail_body("FEN: whatever\n");
    assert!(parsed.chess_move.is_none());
    assert!(!parsed.new_game);
}

#[test]
fn txhash_is_read_from_the_publish_output() {
    let out = "gas estimate: 12345\ntxhash: 0AB1C2D3\nheight: 77\n";
    assert_eq!(extract_txhash(out).unwrap(), "0AB1C2D3");
    assert!(extract_txhash("no hash here\n").is_none());
}
