use vstd::prelude::*;

use crate::game::GameState;
use crate::strutil::str_eq;

verus! {

/// What playing a move token, written in standard algebraic notation, on
/// a FEN board yields: the FEN of the resulting position, or nothing when
/// the board does not decode or the move does not legally apply.  A
/// function of the two strings alone.
pub uninterp spec fn play_of(board: Seq<char>, mv: Seq<char>) -> Option<Seq<char>>;

/// Whether a FEN board is checkmate.  A function of the string alone; a
/// board that does not decode is not checkmate.
pub uninterp spec fn mate_of(board: Seq<char>) -> bool;

/// Whether a FEN board is stalemate; a board that does not decode is not.
pub uninterp spec fn stalemate_of(board: Seq<char>) -> bool;

/// Whether a FEN board is drawn by insufficient material; a board that
/// does not decode is not.
pub uninterp spec fn insufficient_of(board: Seq<char>) -> bool;

/// How the rules engine classifies a board, checkmate taking precedence,
/// then stalemate, then insufficient material.
pub open spec fn status_of(board: Seq<char>) -> GameState {
    if mate_of(board) {
        GameState::Checkmate
    } else if stalemate_of(board) {
        GameState::Stalemate
    } else if insufficient_of(board) {
        GameState::Draw
    } else {
        GameState::InProgress
    }
}

/// Relies on shakmaty: Fen::from_ascii, Fen::into_position,
/// San::from_ascii, San::to_move, Position::play and Fen::from_position
/// derive the played position, and its rendered FEN, from the two strings
/// alone; any decode or legality failure yields nothing.
#[verifier::external_body]
pub(crate) fn play_san(board: &str, mv: &str) -> (r: Option<String>)
    ensures
        match r {
            Some(next) => play_of(board@, mv@) == Some(next@),
            None => play_of(board@, mv@) is None,
        },
{
    let fen = shakmaty::fen::Fen::from_ascii(board.as_bytes()).ok()?;
    let pos: shakmaty::Chess = fen.into_position(shakmaty::CastlingMode::Standard).ok()?;
    let san = shakmaty::san::San::from_ascii(mv.as_bytes()).ok()?;
    let m = san.to_move(&pos).ok()?;
    let next = shakmaty::Position::play(pos, m).ok()?;
    Some(shakmaty::fen::Fen::from_position(&next, shakmaty::EnPassantMode::Legal).to_string())
}

/// Relies on shakmaty: Fen::from_ascii, Fen::into_position and
/// Position::is_checkmate answer from the string alone.
#[verifier::external_body]
pub(crate) fn fen_is_checkmate(board: &str) -> (r: bool)
    ensures
        r == mate_of(board@),
{
    match shakmaty::fen::Fen::from_ascii(board.as_bytes())
        .ok()
        .and_then(|f| f.into_position::<shakmaty::Chess>(shakmaty::CastlingMode::Standard).ok()) {
        Some(pos) => shakmaty::Position::is_checkmate(&pos),
        None => false,
    }
}

/// Relies on shakmaty: Fen::from_ascii, Fen::into_position and
/// Position::is_stalemate answer from the string alone.
#[verifier::external_body]
pub(crate) fn fen_is_stalemate(board: &str) -> (r: bool)
    ensures
        r == stalemate_of(board@),
{
    match shakmaty::fen::Fen::from_ascii(board.as_bytes())
        .ok()
        .and_then(|f| f.into_position::<shakmaty::Chess>(shakmaty::CastlingMode::Standard).ok()) {
        Some(pos) => shakmaty::Position::is_stalemate(&pos),
        None => false,
    }
}

/// Relies on shakmaty: Fen::from_ascii, Fen::into_position and
/// Position::is_insufficient_material answer from the string alone.
#[verifier::external_body]
pub(crate) fn fen_is_insufficient(board: &str) -> (r: bool)
    ensures
        r == insufficient_of(board@),
{
    match shakmaty::fen::Fen::from_ascii(board.as_bytes())
        .ok()
        .and_then(|f| f.into_position::<shakmaty::Chess>(shakmaty::CastlingMode::Standard).ok()) {
        Some(pos) => shakmaty::Position::is_insufficient_material(&pos),
        None => false,
    }
}

/// Classify a board the way the rules engine does.
pub fn board_status(board: &str) -> (r: GameState)
    ensures
        r == status_of(board@),
{
    if fen_is_checkmate(board) {
        GameState::Checkmate
    } else if fen_is_stalemate(board) {
        GameState::Stalemate
    } else if fen_is_insufficient(board) {
        GameState::Draw
    } else {
        GameState::InProgress
    }
}

/// The condition the settlement program re-executes over a chained claim:
/// replaying the prior move on the prior board must land exactly on the
/// claimed board, and the claimed move must then mate it.  The landing
/// is compared on the rendered board string itself, as the referee's
/// notifications carry it: a differently spelled but equivalent board
/// does not chain.
pub open spec fn chain_ok(
    claimed_move: Seq<char>,
    claimed_board: Seq<char>,
    prev_move: Seq<char>,
    prev_board: Seq<char>,
) -> bool {
    &&& play_of(prev_board, prev_move) == Some(claimed_board)
    &&& match play_of(claimed_board, claimed_move) {
        Some(after) => mate_of(after),
        None => false,
    }
}

/// Decide a chained claim exactly as the settlement program does.
pub fn check_chained_claim(
    claimed_move: &str,
    claimed_board: &str,
    prev_move: &str,
    prev_board: &str,
) -> (r: bool)
    ensures
        r == chain_ok(claimed_move@, claimed_board@, prev_move@, prev_board@),
{
    match play_san(prev_board, prev_move) {
        None => false,
        Some(expected) => {
            if !str_eq(expected.as_str(), claimed_board) {
                false
            } else {
                match play_san(claimed_board, claimed_move) {
                    None => false,
                    Some(after) => fen_is_checkmate(after.as_str()),
                }
            }
        },
    }
}

} // verus!
