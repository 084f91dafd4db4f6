use vstd::prelude::*;
use vstd::string::*;

verus! {

/// Horizontal whitespace trimmed around a field value; a carriage return
/// counts, so lines may end either way.
pub open spec fn is_space(c: char) -> bool {
    c == ' ' || c == '\t' || c == '\r'
}

pub(crate) fn is_space_char(c: char) -> (r: bool)
    ensures
        r == is_space(c),
{
    c == ' ' || c == '\t' || c == '\r'
}

/// A field key counts only at the start of a line.
pub open spec fn is_line_start(s: Seq<char>, i: int) -> bool {
    i == 0 || s[i - 1] == '\n'
}

/// The key reads at position `i`, at the start of a line.
pub open spec fn key_at(s: Seq<char>, key: Seq<char>, i: int) -> bool {
    &&& is_line_start(s, i)
    &&& 0 <= i
    &&& i + key.len() <= s.len()
    &&& s.subrange(i, i + key.len()) == key
}

/// Position of the first line starting with the key, at or after `i`.
pub open spec fn find_key(s: Seq<char>, key: Seq<char>, i: int) -> Option<int>
    decreases s.len() - i + 1,
{
    if i < 0 || i + key.len() > s.len() {
        None
    } else if key_at(s, key, i) {
        Some(i)
    } else {
        find_key(s, key, i + 1)
    }
}

/// Position of the line break ending the line that holds `i`, or the end
/// of the text.
pub open spec fn line_end(s: Seq<char>, i: int) -> int
    decreases s.len() - i,
{
    if i < 0 {
        0
    } else if i >= s.len() {
        s.len() as int
    } else if s[i] == '\n' {
        i
    } else {
        line_end(s, i + 1)
    }
}

/// The value with leading horizontal whitespace dropped.
pub open spec fn trim_front(s: Seq<char>) -> Seq<char>
    decreases s.len(),
{
    if s.len() > 0 && is_space(s[0]) {
        trim_front(s.drop_first())
    } else {
        s
    }
}

/// The value with trailing horizontal whitespace dropped.
pub open spec fn trim_back(s: Seq<char>) -> Seq<char>
    decreases s.len(),
{
    if s.len() > 0 && is_space(s.last()) {
        trim_back(s.drop_last())
    } else {
        s
    }
}

pub open spec fn trim(s: Seq<char>) -> Seq<char> {
    trim_back(trim_front(s))
}

/// The trimmed rest of the first line starting with the key, if one does.
pub open spec fn field_of(s: Seq<char>, key: Seq<char>) -> Option<Seq<char>> {
    match find_key(s, key, 0) {
        Some(i) => Some(trim(s.subrange(i + key.len(), line_end(s, i + key.len())))),
        None => None,
    }
}

proof fn lemma_trim_front_range(s: Seq<char>, vs: int, ve: int, a: int)
    requires
        0 <= vs <= a <= ve <= s.len(),
        forall|t: int| vs <= t < a ==> is_space(s[t]),
        a < ve ==> !is_space(s[a]),
    ensures
        trim_front(s.subrange(vs, ve)) == s.subrange(a, ve),
    decreases a - vs,
{
    if vs == a {
        if vs < ve {
            assert(s.subrange(vs, ve)[0] == s[vs]);
        }
    } else {
        assert(is_space(s.subrange(vs, ve)[0]));
        assert(s.subrange(vs, ve).drop_first() =~= s.subrange(vs + 1, ve));
        lemma_trim_front_range(s, vs + 1, ve, a);
    }
}

proof fn lemma_trim_back_range(s: Seq<char>, a: int, ve: int, b: int)
    requires
        0 <= a <= b <= ve <= s.len(),
        forall|t: int| b <= t < ve ==> is_space(s[t]),
        a < b ==> !is_space(s[b - 1]),
    ensures
        trim_back(s.subrange(a, ve)) == s.subrange(a, b),
    decreases ve - b,
{
    if b == ve {
        if a < ve {
            assert(s.subrange(a, ve).last() == s[ve - 1]);
        }
    } else {
        assert(is_space(s.subrange(a, ve).last()));
        assert(s.subrange(a, ve).drop_last() =~= s.subrange(a, ve - 1));
        lemma_trim_back_range(s, a, ve - 1, b);
    }
}

/// Whether the key reads at position `i` of the text.
fn at_key(s: &str, key: &str, i: usize, n: usize, kn: usize) -> (r: bool)
    requires
        n == s@.len(),
        kn == key@.len(),
        i + kn <= n,
    ensures
        r == key_at(s@, key@, i as int),
{
    if i > 0 && s.get_char(i - 1) != '\n' {
        return false;
    }
    let mut j: usize = 0;
    while j < kn
        invariant
            0 <= j <= kn,
            n == s@.len(),
            kn == key@.len(),
            i + kn <= n,
            forall|t: int| 0 <= t < j ==> s@[i + t] == key@[t],
        decreases kn - j,
    {
        if s.get_char(i + j) != key.get_char(j) {
            proof {
                assert(s@.subrange(i as int, i as int + kn as int)[j as int] == s@[i + j]);
            }
            return false;
        }
        j += 1;
    }
    proof {
        assert(s@.subrange(i as int, i as int + kn as int) =~= key@);
    }
    true
}

/// Position of the line break ending the line holding `from`, or the end.
fn scan_line_end(s: &str, from: usize, n: usize) -> (r: usize)
    requires
        n == s@.len(),
        from <= n,
    ensures
        r == line_end(s@, from as int),
        from <= r <= n,
{
    let mut j = from;
    while j < n
        invariant
            from <= j <= n,
            n == s@.len(),
            line_end(s@, from as int) == line_end(s@, j as int),
        decreases n - j,
    {
        if s.get_char(j) == '\n' {
            return j;
        }
        j += 1;
    }
    n
}

/// The trimmed value of the first line starting with the key, if the text
/// has one.
pub fn find_field(s: &str, key: &str) -> (r: Option<String>)
    requires
        key@.len() >= 1,
    ensures
        match r {
            Some(v) => field_of(s@, key@) == Some(v@),
            None => field_of(s@, key@) is None,
        },
{
    let n = s.unicode_len();
    let kn = key.unicode_len();
    if kn > n {
        return None;
    }
    let limit = n - kn;
    let mut i: usize = 0;
    while i <= limit
        invariant
            0 <= i <= limit + 1,
            limit == n - kn,
            1 <= kn <= n,
            n == s@.len(),
            kn == key@.len(),
            find_key(s@, key@, 0) == find_key(s@, key@, i as int),
        decreases limit + 1 - i,
    {
        if at_key(s, key, i, n, kn) {
            let vs = i + kn;
            let ve = scan_line_end(s, vs, n);
            let mut a = vs;
            while a < ve && is_space_char(s.get_char(a))
                invariant
                    vs <= a <= ve <= n,
                    n == s@.len(),
                    forall|t: int| vs <= t < a ==> is_space(s@[t]),
                decreases ve - a,
            {
                a += 1;
            }
            let mut b = ve;
            while b > a && is_space_char(s.get_char(b - 1))
                invariant
                    a <= b <= ve <= n,
                    n == s@.len(),
                    forall|t: int| b <= t < ve ==> is_space(s@[t]),
                decreases b - a,
            {
                b -= 1;
            }
            let v = String::from_str(s.substring_char(a, b));
            proof {
                lemma_trim_front_range(s@, vs as int, ve as int, a as int);
                lemma_trim_back_range(s@, a as int, ve as int, b as int);
            }
            return Some(v);
        }
        i += 1;
    }
    None
}

} // verus!
