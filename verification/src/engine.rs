use vstd::prelude::*;
use vstd::string::*;

use crate::game::{Game, GameState, START_FEN};
use crate::mail::{
    body_text_of, extract_identities, mail_body_text, parse_mail_body, spec_cc_addr,
    spec_fen_field, spec_from_addr, spec_move_field, spec_new_game,
};
use crate::rules::{board_status, chain_ok, mate_of, play_of, play_san, status_of};
use crate::store::DbManager;

verus! {

/// The chained anti-forgery input handed to the settlement program: the
/// claimed terminal transition and the prior transition the referee
/// itself validated.
pub struct ProofInput {
    pub claimed_move: String,
    pub claimed_board: String,
    pub prev_move: String,
    pub prev_board: String,
}

/// The settlement program's condition over a chained input.
pub open spec fn chain_ok_input(pi: ProofInput) -> bool {
    chain_ok(pi.claimed_move@, pi.claimed_board@, pi.prev_move@, pi.prev_board@)
}

/// Any chained input whose prior move replays exactly to the claimed
/// board, and whose claimed move then mates it, is accepted by the
/// settlement check.
pub proof fn lemma_chained_claim_accepted(pi: ProofInput, after: Seq<char>)
    requires
        play_of(pi.prev_board@, pi.prev_move@) == Some(pi.claimed_board@),
        play_of(pi.claimed_board@, pi.claimed_move@) == Some(after),
        mate_of(after),
    ensures
        chain_ok_input(pi),
{
}

/// Any chained input whose claimed board is not what the prior move
/// yields on the prior board is rejected, mate or no mate.
pub proof fn lemma_unchained_claim_rejected(pi: ProofInput)
    requires
        play_of(pi.prev_board@, pi.prev_move@) != Some(pi.claimed_board@),
    ensures
        !chain_ok_input(pi),
{
}

/// The board a message body claims its move against: the starting board
/// under a fresh-game marker, else the body's FEN field.
pub open spec fn spec_claimed_board(body: Seq<char>) -> Option<Seq<char>> {
    if spec_new_game(body) {
        Some(START_FEN@)
    } else {
        spec_fen_field(body)
    }
}

/// The move token of a raw message, through its first text subpart.
pub open spec fn spec_msg_move(raw: Seq<u8>) -> Option<Seq<char>> {
    match body_text_of(raw) {
        Some(b) => spec_move_field(b),
        None => None,
    }
}

/// The claimed board of a raw message, through its first text subpart.
pub open spec fn spec_msg_board(raw: Seq<u8>) -> Option<Seq<char>> {
    match body_text_of(raw) {
        Some(b) => spec_claimed_board(b),
        None => None,
    }
}

/// The prior transition a stored evidence message describes: its move
/// token and the board it claimed against.
pub open spec fn spec_prev_of(raw: Seq<u8>) -> Option<(Seq<char>, Seq<char>)> {
    match body_text_of(raw) {
        Some(body) => match (spec_move_field(body), spec_claimed_board(body)) {
            (Some(m), Some(b)) => Some((m, b)),
            _ => None,
        },
        None => None,
    }
}

/// The identities of a message: the single "From" address (the mover)
/// and the single "Cc" address (the opponent), when each header carries
/// exactly one.
pub open spec fn spec_identities(raw: Seq<u8>) -> Option<(Seq<char>, Seq<char>)> {
    match (spec_from_addr(raw), spec_cc_addr(raw)) {
        (Some(f), Some(o)) => Some((f, o)),
        _ => None,
    }
}

/// Whether a raw message carries a fresh-game marker, through its first
/// text subpart.
pub open spec fn spec_msg_new_game(raw: Seq<u8>) -> bool {
    match body_text_of(raw) {
        Some(b) => spec_new_game(b),
        None => false,
    }
}

/// Whether the store holds no live game for the message's pair: the pair
/// was never seen, or its game row is gone.
pub open spec fn spec_no_live_game(db: DbManager, raw: Seq<u8>) -> bool {
    match spec_identities(raw) {
        Some((f, o)) => match db.spec_matchup(f, o) {
            Some(id) => db.spec_game(id) is None,
            None => true,
        },
        None => true,
    }
}

/// Exactly when a message must be dropped, and for which reason, in the
/// order the handler reads the message.  A message with none of these
/// faults must be accepted.
pub open spec fn spec_drop_reason(db: DbManager, raw: Seq<u8>) -> Option<DropReason> {
    if body_text_of(raw) is None {
        Some(DropReason::NoBody)
    } else if spec_identities(raw) is None {
        Some(DropReason::BadHeaders)
    } else {
        match (spec_msg_move(raw), spec_msg_board(raw)) {
            (Option::None, _) => Some(DropReason::MissingMove),
            (Some(m), Option::None) => Some(DropReason::MissingBoard),
            (Some(m), Some(b)) => if play_of(b, m) is None {
                Some(DropReason::RuleViolation)
            } else if !spec_msg_new_game(raw) && spec_no_live_game(db, raw) {
                Some(DropReason::NoSuchGame)
            } else {
                None
            },
        }
    }
}

/// What every accepted move does to the store, whatever the outcome: the
/// pair's matchup maps to the returned identifier and no other pair's
/// entry moves; the stored game carries the message's identities (a
/// fresh game) or the prior record's (an existing one), with both turn
/// flags flipped; and no other game row moves.
pub open spec fn spec_accepted_store(
    db_old: DbManager,
    db_new: DbManager,
    raw: Seq<u8>,
    game_id: Seq<char>,
) -> bool {
    match spec_identities(raw) {
        Some((f, o)) => {
            &&& db_new.spec_matchup(f, o) == Some(game_id)
            &&& forall|x: Seq<char>, y: Seq<char>|
                !((x == f && y == o) || (x == o && y == f)) ==> db_new.spec_matchup(x, y)
                    == db_old.spec_matchup(x, y)
            &&& match db_new.spec_game(game_id) {
                Some(g) => if spec_msg_new_game(raw) {
                    &&& g.players[0].email@ == f
                    &&& g.players[1].email@ == o
                    &&& g.players[0].is_next == true
                    &&& g.players[1].is_next == true
                } else {
                    match db_old.spec_game(game_id) {
                        Some(g0) => {
                            &&& g.players[0].email@ == g0.players[0].email@
                            &&& g.players[1].email@ == g0.players[1].email@
                            &&& g.players[0].is_next == !g0.players[0].is_next
                            &&& g.players[1].is_next == !g0.players[1].is_next
                        },
                        None => false,
                    }
                },
                None => false,
            }
            &&& forall|id: Seq<char>|
                id != game_id ==> db_new.spec_game(id) == db_old.spec_game(id)
        },
        None => false,
    }
}

/// Re-derive the chained proof input for a game from its stored evidence:
/// the prior move and board are re-parsed from the evidence message, the
/// claimed transition is taken as given.  Everything is a function of the
/// store and the arguments, so replaying it for the same game yields the
/// identical input.
pub fn build_proof_input(
    db: &DbManager,
    game_id: &str,
    claimed_move: &str,
    claimed_board: &str,
) -> (r: Option<ProofInput>)
    ensures
        match r {
            Some(pi) => {
                &&& pi.claimed_move@ == claimed_move@
                &&& pi.claimed_board@ == claimed_board@
                &&& db.spec_email(game_id@) matches Some(ev) && spec_prev_of(ev) == Some(
                    (pi.prev_move@, pi.prev_board@),
                )
            },
            None => match db.spec_email(game_id@) {
                Some(ev) => spec_prev_of(ev) is None,
                None => true,
            },
        },
{
    let ev = match db.get_email(game_id) {
        Some(ev) => ev,
        None => {
            return None;
        },
    };
    let body = match mail_body_text(ev.as_slice()) {
        Some(b) => b,
        None => {
            return None;
        },
    };
    let parsed = parse_mail_body(body.as_str());
    let prev_move = match parsed.chess_move {
        Some(m) => m,
        None => {
            return None;
        },
    };
    let prev_board = if parsed.new_game {
        String::from_str(START_FEN)
    } else {
        match parsed.fen {
            Some(f) => f,
            None => {
                return None;
            },
        }
    };
    Some(
        ProofInput {
            claimed_move: String::from_str(claimed_move),
            claimed_board: String::from_str(claimed_board),
            prev_move,
            prev_board,
        },
    )
}

/// The explicit replay path for a game left won but unsettled: re-parse
/// the terminal message and re-derive the chained input from the stored
/// evidence.  Nothing here depends on anything but the store row and the
/// message, so a replay reproduces the identical input.
pub fn replay_settlement_input(db: &DbManager, game_id: &str, terminal_raw: &[u8]) -> (r: Option<
    ProofInput,
>)
    ensures
        match r {
            Some(pi) => {
                &&& spec_msg_move(terminal_raw@) == Some(pi.claimed_move@)
                &&& spec_msg_board(terminal_raw@) == Some(pi.claimed_board@)
                &&& db.spec_email(game_id@) matches Some(ev) && spec_prev_of(ev) == Some(
                    (pi.prev_move@, pi.prev_board@),
                )
            },
            None => spec_msg_move(terminal_raw@) is None || spec_msg_board(terminal_raw@) is None
                || db.spec_email(game_id@) is None || (db.spec_email(game_id@) matches Some(ev)
                && spec_prev_of(ev) is None),
        },
{
    let body = match mail_body_text(terminal_raw) {
        Some(b) => b,
        None => {
            return None;
        },
    };
    let parsed = parse_mail_body(body.as_str());
    let claimed_move = match parsed.chess_move {
        Some(m) => m,
        None => {
            return None;
        },
    };
    let claimed_board = if parsed.new_game {
        String::from_str(START_FEN)
    } else {
        match parsed.fen {
            Some(f) => f,
            None => {
                return None;
            },
        }
    };
    build_proof_input(db, game_id, claimed_move.as_str(), claimed_board.as_str())
}

/// Replaying yields the identical input: two chained inputs derived from
/// the same evidence and the same claimed transition agree everywhere,
/// so the settlement program answers them alike.
pub proof fn lemma_replay_idempotent(ev: Seq<u8>, a: ProofInput, b: ProofInput)
    requires
        a.claimed_move@ == b.claimed_move@,
        a.claimed_board@ == b.claimed_board@,
        spec_prev_of(ev) == Some((a.prev_move@, a.prev_board@)),
        spec_prev_of(ev) == Some((b.prev_move@, b.prev_board@)),
    ensures
        a.prev_move@ == b.prev_move@,
        a.prev_board@ == b.prev_board@,
        chain_ok_input(a) == chain_ok_input(b),
{
}

/// Why a message was dropped: a user-facing mistake, never a fault of the
/// service, and never a state change.
#[derive(Clone, Copy, Debug, PartialEq, Eq, Structural)]
pub enum DropReason {
    /// the message has no text subpart to read
    NoBody,
    /// "From" or "Cc" does not carry exactly one address
    BadHeaders,
    /// the required MOVE field is missing
    MissingMove,
    /// no fresh-game marker and no FEN field to move on
    MissingBoard,
    /// no live game exists for the pair and no fresh game was asked for
    NoSuchGame,
    /// the board does not decode or the move does not legally apply
    RuleViolation,
}

/// What handling one message decided.
pub enum Outcome {
    /// dropped: the store is exactly as it was
    Drop(DropReason),
    /// an accepted in-progress move: notify `to`, copying `cc`
    Reply { game_id: String, to: String, cc: String, chess_move: String, fen: String },
    /// an accepted move ending the game other than by mate: recorded only
    Recorded { game_id: String, state: GameState },
    /// a terminal claim, chained and ready for settlement
    Settle { game_id: String, input: ProofInput },
    /// a terminal claim that no stored evidence can chain to
    TerminalUnchained { game_id: String },
}

/// Handle one inbound message against the store: parse it, validate the
/// claimed move, persist the advanced game, and decide what follows.
pub fn process_message(db: &mut DbManager, raw: &[u8]) -> (r: Outcome)
    requires
        old(db).wf(),
    ensures
        final(db).wf(),
        // the matchup index is permanent: no entry is ever lost
        forall|x: Seq<char>, y: Seq<char>|
            #[trigger] old(db).spec_matchup(x, y) matches Some(i) ==> final(db).spec_matchup(x, y)
                == Some(i),
        // a faultless message is accepted, and how the rules engine
        // classifies the played position decides the outcome's kind;
        // the arms below split Settle from TerminalUnchained by whether
        // the stored evidence chains
        spec_drop_reason(*old(db), raw@) is None ==> match (
            spec_msg_move(raw@),
            spec_msg_board(raw@),
        ) {
            (Some(m), Some(b)) => match play_of(b, m) {
                Some(next) => match status_of(next) {
                    GameState::InProgress => r is Reply,
                    GameState::Checkmate => r is Settle || r is TerminalUnchained,
                    GameState::Stalemate => r is Recorded,
                    GameState::Draw => r is Recorded,
                },
                None => false,
            },
            _ => false,
        },
        match r {
            Outcome::Drop(reason) => *final(db) == *old(db) && spec_drop_reason(*old(db), raw@)
                == Some(reason),
            Outcome::Reply { game_id, to, cc, chess_move, fen } => {
                &&& spec_from_addr(raw@) == Some(cc@)
                &&& spec_cc_addr(raw@) == Some(to@)
                &&& spec_msg_move(raw@) == Some(chess_move@)
                &&& spec_msg_board(raw@) matches Some(b) && play_of(b, chess_move@) == Some(fen@)
                &&& status_of(fen@) == GameState::InProgress
                &&& spec_accepted_store(*old(db), *final(db), raw@, game_id@)
                &&& final(db).spec_game(game_id@) matches Some(g) && g.position.fen@ == fen@
                    && g.state == GameState::InProgress
                &&& final(db).spec_email(game_id@) == Some(raw@)
                &&& forall|id: Seq<char>|
                    id != game_id@ ==> final(db).spec_email(id) == old(db).spec_email(id)
            },
            Outcome::Recorded { game_id, state } => {
                &&& (state is Stalemate || state is Draw)
                &&& spec_msg_move(raw@) matches Some(m) && (spec_msg_board(raw@) matches Some(b)
                    && (play_of(b, m) matches Some(next) && status_of(next) == state && (final(db).spec_game(game_id@)
                    matches Some(g) && g.position.fen@ == next && g.state == state)))
                &&& spec_accepted_store(*old(db), *final(db), raw@, game_id@)
                &&& forall|id: Seq<char>| final(db).spec_email(id) == old(db).spec_email(id)
            },
            Outcome::Settle { game_id, input } => {
                &&& spec_msg_move(raw@) == Some(input.claimed_move@)
                &&& spec_msg_board(raw@) == Some(input.claimed_board@)
                &&& play_of(input.claimed_board@, input.claimed_move@) matches Some(next)
                    && mate_of(next) && (final(db).spec_game(game_id@) matches Some(g)
                    && g.position.fen@ == next && g.state == GameState::Checkmate)
                &&& old(db).spec_email(game_id@) matches Some(ev) && spec_prev_of(ev) == Some(
                    (input.prev_move@, input.prev_board@),
                )
                &&& spec_accepted_store(*old(db), *final(db), raw@, game_id@)
                &&& forall|id: Seq<char>| final(db).spec_email(id) == old(db).spec_email(id)
            },
            Outcome::TerminalUnchained { game_id } => {
                &&& spec_msg_move(raw@) matches Some(m) && (spec_msg_board(raw@) matches Some(b)
                    && (play_of(b, m) matches Some(next) && mate_of(next) && (final(db).spec_game(game_id@)
                    matches Some(g) && g.position.fen@ == next && g.state
                    == GameState::Checkmate)))
                &&& old(db).spec_email(game_id@) is None || (old(db).spec_email(game_id@)
                    matches Some(ev) && spec_prev_of(ev) is None)
                &&& spec_accepted_store(*old(db), *final(db), raw@, game_id@)
                &&& forall|id: Seq<char>| final(db).spec_email(id) == old(db).spec_email(id)
            },
        },
{
    let body = match mail_body_text(raw) {
        Some(b) => b,
        None => {
            return Outcome::Drop(DropReason::NoBody);
        },
    };
    let (from_addr, cc_addr) = match extract_identities(raw) {
        Some(p) => p,
        None => {
            return Outcome::Drop(DropReason::BadHeaders);
        },
    };
    let parsed = parse_mail_body(body.as_str());
    let chess_move = match parsed.chess_move {
        Some(m) => m,
        None => {
            return Outcome::Drop(DropReason::MissingMove);
        },
    };
    let board = if parsed.new_game {
        String::from_str(START_FEN)
    } else {
        match parsed.fen {
            Some(f) => f,
            None => {
                return Outcome::Drop(DropReason::MissingBoard);
            },
        }
    };
    let next = match play_san(board.as_str(), chess_move.as_str()) {
        Some(n) => n,
        None => {
            return Outcome::Drop(DropReason::RuleViolation);
        },
    };
    let state = board_status(next.as_str());
    let (game_id, game) = if parsed.new_game {
        let id = db.get_game_id(from_addr.as_str(), cc_addr.as_str());
        proof {
            // an entry under either ordering of the pair survives the
            // lazy creation: a present pair is returned, not replaced
            assert forall|x: Seq<char>, y: Seq<char>|
                (#[trigger] old(db).spec_matchup(x, y)) is Some implies db.spec_matchup(x, y)
                == old(db).spec_matchup(x, y) by {
                crate::store::lemma_matchup_order_independent(*old(db), x, y);
            }
        }
        let mut g = Game::new(from_addr.as_str(), cc_addr.as_str());
        g.update(next.clone(), state);
        (id, g)
    } else {
        let id = match db.find_game_id(from_addr.as_str(), cc_addr.as_str()) {
            Some(id) => id.clone(),
            None => {
                return Outcome::Drop(DropReason::NoSuchGame);
            },
        };
        let g = match db.get_game(id.as_str()) {
            Some(g) => g.advanced(next.clone(), state),
            None => {
                return Outcome::Drop(DropReason::NoSuchGame);
            },
        };
        (id, g)
    };
    db.store_game(game_id.as_str(), game);
    match state {
        GameState::InProgress => {
            db.store_email(game_id.as_str(), raw);
            proof {
                assert(spec_identities(raw@) == Some((from_addr@, cc_addr@)));
                assert(db.spec_matchup(from_addr@, cc_addr@) == Some(game_id@));
                assert(forall|x: Seq<char>, y: Seq<char>|
                    !((x == from_addr@ && y == cc_addr@) || (x == cc_addr@ && y == from_addr@))
                        ==> db.spec_matchup(x, y) == old(db).spec_matchup(x, y));
                assert(db.spec_game(game_id@) is Some);
                assert(forall|id: Seq<char>|
                    id != game_id@ ==> db.spec_game(id) == old(db).spec_game(id));
                assert(spec_accepted_store(*old(db), *db, raw@, game_id@));
            }
            Outcome::Reply { game_id, to: cc_addr, cc: from_addr, chess_move, fen: next }
        },
        GameState::Checkmate => {
            proof {
                assert(spec_accepted_store(*old(db), *db, raw@, game_id@));
            }
            match build_proof_input(db, game_id.as_str(), chess_move.as_str(), board.as_str()) {
                Some(input) => Outcome::Settle { game_id, input },
                None => Outcome::TerminalUnchained { game_id },
            }
        },
        GameState::Stalemate => {
            proof {
                assert(spec_accepted_store(*old(db), *db, raw@, game_id@));
            }
            Outcome::Recorded { game_id, state }
        },
        GameState::Draw => {
            proof {
                assert(spec_accepted_store(*old(db), *db, raw@, game_id@));
            }
            Outcome::Recorded { game_id, state }
        },
    }
}

} // verus!
