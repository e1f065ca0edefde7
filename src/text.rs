//! Character-sequence searching used by the manifest and marker rules.

use vstd::prelude::*;

verus! {

/// `pat` occurs in `s` starting at index `i`.
pub open spec fn occurs_at(s: Seq<char>, pat: Seq<char>, i: int) -> bool {
    0 <= i && i + pat.len() <= s.len() && s.subrange(i, i + pat.len()) == pat
}

/// `pat` occurs somewhere in `s`.
pub open spec fn contains(s: Seq<char>, pat: Seq<char>) -> bool {
    exists|i: int| occurs_at(s, pat, i)
}

/// `i` is the first place at or after `start` where `pat` occurs in `s`.
pub open spec fn first_from(s: Seq<char>, pat: Seq<char>, start: int, i: int) -> bool {
    &&& start <= i
    &&& occurs_at(s, pat, i)
    &&& forall|k: int| start <= k < i ==> !occurs_at(s, pat, k)
}

/// The first place at or after `start` where `pat` occurs in `s`, if any.
pub open spec fn first_index(s: Seq<char>, pat: Seq<char>, start: int) -> Option<int> {
    if exists|i: int| first_from(s, pat, start, i) {
        Some(choose|i: int| first_from(s, pat, start, i))
    } else {
        None
    }
}

/// There is at most one first occurrence.
pub proof fn lemma_first_unique(s: Seq<char>, pat: Seq<char>, start: int, i: int, j: int)
    requires
        first_from(s, pat, start, i),
        first_from(s, pat, start, j),
    ensures
        i == j,
{
}

/// What `first_index` is, once a first occurrence or the absence of any is known.
pub proof fn lemma_first_index(s: Seq<char>, pat: Seq<char>, start: int, r: Option<int>)
    requires
        match r {
            Some(i) => first_from(s, pat, start, i),
            None => forall|k: int| start <= k ==> !occurs_at(s, pat, k),
        },
    ensures
        first_index(s, pat, start) == r,
{
    match r {
        Some(i) => {
            let j = choose|j: int| first_from(s, pat, start, j);
            lemma_first_unique(s, pat, start, i, j);
        },
        None => {},
    }
}

/// The text of an optional string.
pub open spec fn opt_view(o: Option<String>) -> Option<Seq<char>> {
    match o {
        Some(s) => Some(s@),
        None => None,
    }
}

/// A copy of an optional string.
pub fn copy_opt(o: &Option<String>) -> (r: Option<String>)
    ensures
        opt_view(r) == opt_view(*o),
{
    match o {
        Some(s) => Some(s.clone()),
        None => None,
    }
}

/// Whether an optional string holds exactly `s`.
pub fn opt_is(o: &Option<String>, s: &String) -> (r: bool)
    ensures
        r == (opt_view(*o) == Some(s@)),
{
    match o {
        Some(t) => *t == *s,
        None => false,
    }
}

/// The characters of a string slice, as a vector.
pub fn chars_of(s: &str) -> (r: Vec<char>)
    ensures
        r@ == s@,
{
    let mut r: Vec<char> = Vec::new();
    for c in it: s.chars()
        invariant
            r@ == it.seq().subrange(0, it.index() as int),
    {
        r.push(c);
    }
    r
}

/// Whether `pat` occurs in `s` at index `i`.
pub fn matches_at(s: &Vec<char>, pat: &Vec<char>, i: usize) -> (r: bool)
    requires
        i + pat@.len() <= s@.len(),
    ensures
        r == occurs_at(s@, pat@, i as int),
{
    let slen = s.len();
    let mut j: usize = 0;
    while j < pat.len()
        invariant
            slen == s@.len(),
            j <= pat@.len(),
            i + pat@.len() <= s@.len(),
            forall|k: int| 0 <= k < j ==> s@[i + k] == pat@[k],
        decreases pat@.len() - j,
    {
        if s[i + j] != pat[j] {
            assert(s@.subrange(i as int, i + pat@.len())[j as int] != pat@[j as int]);
            return false;
        }
        j = j + 1;
    }
    assert(s@.subrange(i as int, i + pat@.len()) =~= pat@);
    true
}

/// The first index at or after `start` where `pat` occurs in `s`.
pub fn find_from(s: &Vec<char>, pat: &Vec<char>, start: usize) -> (r: Option<usize>)
    ensures
        match r {
            Some(i) => first_from(s@, pat@, start as int, i as int),
            None => forall|k: int| start <= k ==> !occurs_at(s@, pat@, k),
        },
        r matches Some(i) ==> first_index(s@, pat@, start as int) == Some(i as int),
        r is None ==> first_index(s@, pat@, start as int) is None,
{
    let slen = s.len();
    let plen = pat.len();
    let mut i = start;
    while i <= slen && slen - i >= plen
        invariant
            start <= i,
            slen == s@.len(),
            plen == pat@.len(),
            forall|k: int| start <= k < i ==> !occurs_at(s@, pat@, k),
        decreases slen + 1 - i,
    {
        if matches_at(s, pat, i) {
            proof {
                lemma_first_index(s@, pat@, start as int, Some(i as int));
            }
            return Some(i);
        }
        proof {
            if plen == 0 {
                assert(s@.subrange(i as int, i as int) =~= pat@);
            }
        }
        i = i + 1;
    }
    proof {
        lemma_first_index(s@, pat@, start as int, None);
    }
    None
}

/// Whether `pat` occurs anywhere in `s`.
pub fn contains_text(s: &str, pat: &str) -> (r: bool)
    ensures
        r == contains(s@, pat@),
{
    let sv = chars_of(s);
    let pv = chars_of(pat);
    match find_from(&sv, &pv, 0) {
        Some(i) => true,
        None => {
            assert(!contains(s@, pat@));
            false
        },
    }
}

} // verus!
