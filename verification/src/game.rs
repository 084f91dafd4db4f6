use vstd::prelude::*;
use vstd::string::*;

verus! {

/// The board a fresh game starts from, in FEN form.
pub const START_FEN: &'static str = "rnbqkbnr/pppppppp/8/8/8/8/PPPPPPPP/RNBQKBNR w KQkq - 0 1";

/// The side a player was assigned at creation.  Carried for the record
/// only: whose turn it is follows from the position string itself.
#[derive(Clone, Copy, Debug, PartialEq, Eq, Structural)]
pub enum Color {
    Black,
    White,
}

/// How the rules engine classifies a position.
#[derive(Clone, Copy, Debug, PartialEq, Eq, Structural)]
pub enum GameState {
    InProgress,
    Checkmate,
    Stalemate,
    Draw,
}

/// One participant of a game: a mail address plus the informational
/// color and turn flag.
pub struct Player {
    pub email: String,
    pub color: Color,
    pub is_next: bool,
}

impl Player {
    /// Flip the informational turn flag; nothing else moves.
    pub fn new_turn(&mut self)
        ensures
            final(self).is_next == !old(self).is_next,
            final(self).email == old(self).email,
            final(self).color == old(self).color,
    {
        self.is_next = !self.is_next;
    }
}

/// A position, held as the FEN string the rules engine reads and writes.
pub struct SerializedChess {
    pub fen: String,
}

/// A live game: its position, both players, and the last classified state.
pub struct Game {
    pub position: SerializedChess,
    pub players: [Player; 2],
    pub state: GameState,
}

impl Game {
    /// A fresh game between two addresses, on the starting board.
    ///
    /// Both players carry the same default color and an unset turn flag,
    /// as the record format has always written them; neither field decides
    /// anything.
    pub fn new(player_1: &str, player_2: &str) -> (g: Game)
        ensures
            g.position.fen@ == START_FEN@,
            g.players[0].email@ == player_1@,
            g.players[1].email@ == player_2@,
            g.players[0].is_next == false,
            g.players[1].is_next == false,
            g.state is InProgress,
    {
        Game {
            position: SerializedChess { fen: String::from_str(START_FEN) },
            players: [
                Player { email: String::from_str(player_1), color: Color::White, is_next: false },
                Player { email: String::from_str(player_2), color: Color::White, is_next: false },
            ],
            state: GameState::InProgress,
        }
    }

    /// Move the record to a new position and classification: both turn
    /// flags flip, the position and state are replaced; addresses and
    /// colors stay.
    pub fn update(&mut self, new_fen: String, new_state: GameState)
        ensures
            final(self).position.fen == new_fen,
            final(self).state == new_state,
            final(self).players[0].is_next == !old(self).players[0].is_next,
            final(self).players[1].is_next == !old(self).players[1].is_next,
            final(self).players[0].email@ == old(self).players[0].email@,
            final(self).players[1].email@ == old(self).players[1].email@,
            final(self).players[0].color == old(self).players[0].color,
            final(self).players[1].color == old(self).players[1].color,
    {
        let p0 = Player {
            email: self.players[0].email.clone(),
            color: self.players[0].color,
            is_next: !self.players[0].is_next,
        };
        let p1 = Player {
            email: self.players[1].email.clone(),
            color: self.players[1].color,
            is_next: !self.players[1].is_next,
        };
        self.players = [p0, p1];
        self.position = SerializedChess { fen: new_fen };
        self.state = new_state;
    }

    /// The record advanced to a new position and classification, leaving
    /// the stored value untouched.
    pub fn advanced(&self, new_fen: String, new_state: GameState) -> (g: Game)
        ensures
            g.position.fen == new_fen,
            g.state == new_state,
            g.players[0].is_next == !self.players[0].is_next,
            g.players[1].is_next == !self.players[1].is_next,
            g.players[0].email@ == self.players[0].email@,
            g.players[1].email@ == self.players[1].email@,
            g.players[0].color == self.players[0].color,
            g.players[1].color == self.players[1].color,
    {
        let p0 = Player {
            email: self.players[0].email.clone(),
            color: self.players[0].color,
            is_next: !self.players[0].is_next,
        };
        let p1 = Player {
            email: self.players[1].email.clone(),
            color: self.players[1].color,
            is_next: !self.players[1].is_next,
        };
        Game { position: SerializedChess { fen: new_fen }, players: [p0, p1], state: new_state }
    }
}

} // verus!
