use vstd::prelude::*;
use vstd::string::*;

verus! {

/// One matchup: an unordered pair of addresses and the game identifier
/// minted for it.
pub struct PairRow {
    pub addr_a: String,
    pub addr_b: String,
    pub game_id: String,
}

/// Whether a row is for the unordered pair `{a, b}`.
pub open spec fn pair_matches(r: PairRow, a: Seq<char>, b: Seq<char>) -> bool {
    (r.addr_a@ == a && r.addr_b@ == b) || (r.addr_a@ == b && r.addr_b@ == a)
}

/// Index of the first row at or after `i` for the pair `{a, b}`.
pub open spec fn find_pair(rows: Seq<PairRow>, a: Seq<char>, b: Seq<char>, i: int) -> Option<int>
    decreases rows.len() - i,
{
    if i < 0 || i >= rows.len() {
        None
    } else if pair_matches(rows[i], a, b) {
        Some(i)
    } else {
        find_pair(rows, a, b, i + 1)
    }
}

/// A lookup never cares which way round the pair is given.
pub proof fn lemma_find_pair_symmetric(rows: Seq<PairRow>, a: Seq<char>, b: Seq<char>, i: int)
    ensures
        find_pair(rows, a, b, i) == find_pair(rows, b, a, i),
    decreases rows.len() - i,
{
    if 0 <= i < rows.len() {
        lemma_find_pair_symmetric(rows, a, b, i + 1);
    }
}

pub proof fn lemma_find_pair_some(rows: Seq<PairRow>, a: Seq<char>, b: Seq<char>, i: int, j: int)
    requires
        find_pair(rows, a, b, i) == Some(j),
    ensures
        i <= j < rows.len(),
        pair_matches(rows[j], a, b),
        forall|k: int| i <= k < j ==> !pair_matches(rows[k], a, b),
    decreases rows.len() - i,
{
    if 0 <= i < rows.len() && !pair_matches(rows[i], a, b) {
        lemma_find_pair_some(rows, a, b, i + 1, j);
    }
}

pub proof fn lemma_find_pair_none(rows: Seq<PairRow>, a: Seq<char>, b: Seq<char>, i: int)
    requires
        0 <= i,
        find_pair(rows, a, b, i) is None,
    ensures
        forall|k: int| i <= k < rows.len() ==> !pair_matches(rows[k], a, b),
    decreases rows.len() - i,
{
    if 0 <= i < rows.len() && !pair_matches(rows[i], a, b) {
        lemma_find_pair_none(rows, a, b, i + 1);
    }
}

pub proof fn lemma_find_pair_of_props(
    rows: Seq<PairRow>,
    a: Seq<char>,
    b: Seq<char>,
    i: int,
    j: int,
)
    requires
        0 <= i <= j < rows.len(),
        pair_matches(rows[j], a, b),
        forall|k: int| i <= k < j ==> !pair_matches(rows[k], a, b),
    ensures
        find_pair(rows, a, b, i) == Some(j),
    decreases rows.len() - i,
{
    if i < j {
        lemma_find_pair_of_props(rows, a, b, i + 1, j);
    }
}

pub proof fn lemma_find_pair_none_of_props(rows: Seq<PairRow>, a: Seq<char>, b: Seq<char>, i: int)
    requires
        forall|k: int| i <= k < rows.len() ==> !pair_matches(rows[k], a, b),
    ensures
        find_pair(rows, a, b, i) is None,
    decreases rows.len() - i,
{
    if 0 <= i < rows.len() {
        lemma_find_pair_none_of_props(rows, a, b, i + 1);
    }
}

/// The pairwise matchup index: permanent, at most one row per unordered
/// pair of addresses.
pub struct MatchupIndex {
    pub rows: Vec<PairRow>,
}

impl MatchupIndex {
    /// No two rows are for the same unordered pair.
    pub open spec fn wf(self) -> bool {
        forall|i: int, j: int|
            0 <= i < j < self.rows@.len() ==> !pair_matches(
                #[trigger] self.rows@[j],
                (#[trigger] self.rows@[i]).addr_a@,
                self.rows@[i].addr_b@,
            )
    }

    /// The identifier minted for the unordered pair `{a, b}`, if any.
    pub open spec fn spec_id(self, a: Seq<char>, b: Seq<char>) -> Option<Seq<char>> {
        match find_pair(self.rows@, a, b, 0) {
            Some(i) => Some(self.rows@[i].game_id@),
            None => None,
        }
    }

    pub fn new() -> (m: MatchupIndex)
        ensures
            m.wf(),
            forall|a: Seq<char>, b: Seq<char>| m.spec_id(a, b) is None,
            m.rows@.len() == 0,
    {
        MatchupIndex { rows: Vec::new() }
    }

    /// Position of the row for `{a, b}`, trying both orderings.
    fn index_of(&self, a: &str, b: &str) -> (r: Option<usize>)
        ensures
            match r {
                Some(i) => find_pair(self.rows@, a@, b@, 0) == Some(i as int),
                None => find_pair(self.rows@, a@, b@, 0) is None,
            },
    {
        let n = self.rows.len();
        let mut i: usize = 0;
        while i < n
            invariant
                0 <= i <= n,
                n == self.rows@.len(),
                find_pair(self.rows@, a@, b@, 0) == find_pair(self.rows@, a@, b@, i as int),
            decreases n - i,
        {
            let row = &self.rows[i];
            let fwd = crate::strutil::str_eq(row.addr_a.as_str(), a) && crate::strutil::str_eq(
                row.addr_b.as_str(),
                b,
            );
            let bwd = crate::strutil::str_eq(row.addr_a.as_str(), b) && crate::strutil::str_eq(
                row.addr_b.as_str(),
                a,
            );
            if fwd || bwd {
                return Some(i);
            }
            i += 1;
        }
        None
    }

    /// The identifier for `{a, b}`, if the pair has ever been seen.
    pub fn lookup(&self, a: &str, b: &str) -> (r: Option<&String>)
        ensures
            match r {
                Some(id) => self.spec_id(a@, b@) == Some(id@),
                None => self.spec_id(a@, b@) is None,
            },
    {
        match self.index_of(a, b) {
            Some(i) => {
                proof {
                    lemma_find_pair_some(self.rows@, a@, b@, 0, i as int);
                }
                Some(&self.rows[i].game_id)
            },
            None => None,
        }
    }

    /// The identifier for `{a, b}`, minting one through `fresh_id` on
    /// first contact.  Order-independent; a second call returns the same
    /// identifier and changes nothing.
    pub fn get_or_create(&mut self, a: &str, b: &str, fresh_id: String) -> (id: String)
        requires
            old(self).wf(),
        ensures
            final(self).wf(),
            final(self).spec_id(a@, b@) == Some(id@),
            old(self).spec_id(a@, b@) is Some ==> *final(self) == *old(self) && old(self).spec_id(
                a@,
                b@,
            ) == Some(id@),
            old(self).spec_id(a@, b@) is None ==> id@ == fresh_id@,
            forall|x: Seq<char>, y: Seq<char>|
                !((x == a@ && y == b@) || (x == b@ && y == a@)) ==> final(self).spec_id(x, y)
                    == old(self).spec_id(x, y),
    {
        match self.index_of(a, b) {
            Some(i) => {
                proof {
                    lemma_find_pair_some(self.rows@, a@, b@, 0, i as int);
                }
                self.rows[i].game_id.clone()
            },
            None => {
                proof {
                    lemma_find_pair_none(self.rows@, a@, b@, 0);
                }
                let id = fresh_id.clone();
                let ghost oldrows = self.rows@;
                self.rows.push(
                    PairRow {
                        addr_a: String::from_str(a),
                        addr_b: String::from_str(b),
                        game_id: fresh_id,
                    },
                );
                proof {
                    let n = oldrows.len() as int;
                    assert(pair_matches(self.rows@[n], a@, b@));
                    lemma_find_pair_of_props(self.rows@, a@, b@, 0, n);
                    assert forall|x: Seq<char>, y: Seq<char>|
                        !((x == a@ && y == b@) || (x == b@ && y == a@)) implies self.spec_id(x, y)
                        == old(self).spec_id(x, y) by {
                        match find_pair(oldrows, x, y, 0) {
                            Some(j) => {
                                lemma_find_pair_some(oldrows, x, y, 0, j);
                                lemma_find_pair_of_props(self.rows@, x, y, 0, j);
                            },
                            None => {
                                lemma_find_pair_none(oldrows, x, y, 0);
                                lemma_find_pair_none_of_props(self.rows@, x, y, 0);
                            },
                        }
                    }
                }
                id
            },
        }
    }
}

} // verus!
