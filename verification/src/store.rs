use vstd::prelude::*;
use vstd::slice::slice_to_vec;

use crate::assoc::Table;
use crate::game::Game;
use crate::matchup::{lemma_find_pair_symmetric, MatchupIndex};

verus! {

/// A stored game together with the time it was last written.
pub struct GameRecord {
    pub game: Game,
    pub last_update: i64,
}

/// The referee's store: game records, the permanent pairwise matchup
/// index, and the single-slot move evidence per game.
pub struct DbManager {
    pub games: Table<GameRecord>,
    pub matchups: MatchupIndex,
    pub emails: Table<Vec<u8>>,
}

/// Relies on uuid::Uuid::new_v4 and uuid's hyphenated Display form: a
/// fresh random identifier, rendered as 36 characters.  Nothing more can
/// be promised of a random value.
#[verifier::external_body]
fn fresh_game_id() -> (r: String)
    ensures
        r@.len() == 36,
{
    uuid::Uuid::new_v4().to_string()
}

/// Relies on chrono::Utc::now and its timestamp method: the wall clock's
/// current Unix time, of which nothing can be promised.
#[verifier::external_body]
fn now_timestamp() -> i64 {
    chrono::Utc::now().timestamp()
}

impl DbManager {
    pub open spec fn wf(self) -> bool {
        self.games.wf() && self.matchups.wf() && self.emails.wf()
    }

    /// The game stored under an identifier, if any.
    pub open spec fn spec_game(self, id: Seq<char>) -> Option<Game> {
        match self.games.spec_get(id) {
            Some(rec) => Some(rec.game),
            None => None,
        }
    }

    /// The raw message held as move evidence for a game, if any.
    pub open spec fn spec_email(self, id: Seq<char>) -> Option<Seq<u8>> {
        match self.emails.spec_get(id) {
            Some(v) => Some(v@),
            None => None,
        }
    }

    /// The identifier minted for an unordered pair of addresses, if any.
    pub open spec fn spec_matchup(self, a: Seq<char>, b: Seq<char>) -> Option<Seq<char>> {
        self.matchups.spec_id(a, b)
    }

    /// An empty store.
    pub fn new() -> (s: DbManager)
        ensures
            s.wf(),
            forall|id: Seq<char>| s.spec_game(id) is None,
            forall|id: Seq<char>| s.spec_email(id) is None,
            forall|a: Seq<char>, b: Seq<char>| s.spec_matchup(a, b) is None,
    {
        DbManager { games: Table::new(), matchups: MatchupIndex::new(), emails: Table::new() }
    }

    /// Overwrite the single evidence slot of a game with a raw message.
    pub fn store_email(&mut self, game_id: &str, raw_email: &[u8])
        requires
            old(self).wf(),
        ensures
            final(self).wf(),
            final(self).spec_email(game_id@) == Some(raw_email@),
            forall|id: Seq<char>|
                id != game_id@ ==> final(self).spec_email(id) == old(self).spec_email(id),
            final(self).games == old(self).games,
            final(self).matchups == old(self).matchups,
    {
        self.emails.put(game_id, slice_to_vec(raw_email));
    }

    /// The evidence slot of a game.
    pub fn get_email(&self, game_id: &str) -> (r: Option<&Vec<u8>>)
        ensures
            match r {
                Some(v) => self.spec_email(game_id@) == Some(v@),
                None => self.spec_email(game_id@) is None,
            },
    {
        self.emails.get(game_id)
    }

    /// Clear the evidence slot of a game.
    pub fn delete_email(&mut self, game_id: &str)
        requires
            old(self).wf(),
        ensures
            final(self).wf(),
            final(self).spec_email(game_id@) is None,
            forall|id: Seq<char>|
                id != game_id@ ==> final(self).spec_email(id) == old(self).spec_email(id),
            final(self).games == old(self).games,
            final(self).matchups == old(self).matchups,
    {
        self.emails.del(game_id);
    }

    /// Replace the stored record of a game, stamped with the current time.
    pub fn store_game(&mut self, game_id: &str, game: Game)
        requires
            old(self).wf(),
        ensures
            final(self).wf(),
            final(self).spec_game(game_id@) == Some(game),
            forall|id: Seq<char>|
                id != game_id@ ==> final(self).spec_game(id) == old(self).spec_game(id),
            final(self).matchups == old(self).matchups,
            final(self).emails == old(self).emails,
    {
        let stamp = now_timestamp();
        self.games.put(game_id, GameRecord { game, last_update: stamp });
    }

    /// The stored record of a game, if any.
    pub fn get_game(&self, game_id: &str) -> (r: Option<&Game>)
        ensures
            match r {
                Some(g) => self.spec_game(game_id@) == Some(*g),
                None => self.spec_game(game_id@) is None,
            },
    {
        match self.games.get(game_id) {
            Some(rec) => Some(&rec.game),
            None => None,
        }
    }

    /// Remove only the game row; the matchup mapping and the evidence
    /// slot persist.
    pub fn delete_game(&mut self, game_id: &str)
        requires
            old(self).wf(),
        ensures
            final(self).wf(),
            final(self).spec_game(game_id@) is None,
            forall|id: Seq<char>|
                id != game_id@ ==> final(self).spec_game(id) == old(self).spec_game(id),
            final(self).matchups == old(self).matchups,
            final(self).emails == old(self).emails,
    {
        self.games.del(game_id);
    }

    /// Finalize a settled game: the game row goes and its evidence slot
    /// is cleared; the matchup mapping stays for a later fresh game.
    pub fn finalize_game(&mut self, game_id: &str)
        requires
            old(self).wf(),
        ensures
            final(self).wf(),
            final(self).spec_game(game_id@) is None,
            final(self).spec_email(game_id@) is None,
            forall|id: Seq<char>|
                id != game_id@ ==> final(self).spec_game(id) == old(self).spec_game(id),
            forall|id: Seq<char>|
                id != game_id@ ==> final(self).spec_email(id) == old(self).spec_email(id),
            final(self).matchups == old(self).matchups,
    {
        self.games.del(game_id);
        self.emails.del(game_id);
    }

    /// The identifier for an unordered pair of addresses, minting a fresh
    /// one on first contact.  Trying both orderings makes the operation
    /// order-independent, and a repeated call returns the same identifier
    /// without touching the store.
    pub fn get_game_id(&mut self, player1: &str, player2: &str) -> (id: String)
        requires
            old(self).wf(),
        ensures
            final(self).wf(),
            final(self).spec_matchup(player1@, player2@) == Some(id@),
            old(self).spec_matchup(player1@, player2@) is Some ==> *final(self) == *old(self)
                && old(self).spec_matchup(player1@, player2@) == Some(id@),
            forall|x: Seq<char>, y: Seq<char>|
                !((x == player1@ && y == player2@) || (x == player2@ && y == player1@))
                    ==> final(self).spec_matchup(x, y) == old(self).spec_matchup(x, y),
            final(self).games == old(self).games,
            final(self).emails == old(self).emails,
    {
        let fresh = fresh_game_id();
        self.matchups.get_or_create(player1, player2, fresh)
    }

    /// The identifier for an unordered pair of addresses, if the pair has
    /// ever been seen; the store is not touched.
    pub fn find_game_id(&self, player1: &str, player2: &str) -> (r: Option<&String>)
        ensures
            match r {
                Some(id) => self.spec_matchup(player1@, player2@) == Some(id@),
                None => self.spec_matchup(player1@, player2@) is None,
            },
    {
        self.matchups.lookup(player1, player2)
    }
}

/// The matchup identifier never depends on the order of the pair: the
/// store answers alike for `{a, b}` and `{b, a}`.
pub proof fn lemma_matchup_order_independent(s: DbManager, a: Seq<char>, b: Seq<char>)
    ensures
        s.spec_matchup(a, b) == s.spec_matchup(b, a),
{
    lemma_find_pair_symmetric(s.matchups.rows@, a, b, 0);
}

} // verus!
