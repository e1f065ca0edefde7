//! Paths are strings whose components are separated by `/`.

use vstd::prelude::*;

verus! {

/// `k` is the last index of `c` in `s`.
pub open spec fn is_last(s: Seq<char>, c: char, k: int) -> bool {
    &&& 0 <= k < s.len()
    &&& s[k] == c
    &&& forall|j: int| k < j < s.len() ==> s[j] != c
}

/// The last index of `c` in `s`, if `c` occurs.
pub open spec fn last_of(s: Seq<char>, c: char) -> Option<int> {
    if exists|k: int| is_last(s, c, k) {
        Some(choose|k: int| is_last(s, c, k))
    } else {
        None
    }
}

/// The last component of a path.
pub open spec fn file_name(p: Seq<char>) -> Seq<char> {
    match last_of(p, '/') {
        Some(k) => p.subrange(k + 1, p.len() as int),
        None => p,
    }
}

/// The path without its last component (`/` for a component right under the root).
pub open spec fn parent(p: Seq<char>) -> Seq<char> {
    match last_of(p, '/') {
        Some(k) => if k == 0 { seq!['/'] } else { p.subrange(0, k) },
        None => Seq::empty(),
    }
}

/// The part of a file name after its last dot; a name that starts with its only
/// dot has none.
pub open spec fn extension(name: Seq<char>) -> Option<Seq<char>> {
    match last_of(name, '.') {
        Some(k) => if k > 0 { Some(name.subrange(k + 1, name.len() as int)) } else { None },
        None => None,
    }
}

/// The file name without its extension.
pub open spec fn file_stem(name: Seq<char>) -> Seq<char> {
    match last_of(name, '.') {
        Some(k) => if k > 0 { name.subrange(0, k) } else { name },
        None => name,
    }
}

/// `p` is `root` or lies below it, compared component by component.
pub open spec fn within(p: Seq<char>, root: Seq<char>) -> bool {
    &&& root.len() <= p.len()
    &&& p.subrange(0, root.len() as int) == root
    &&& (p.len() == root.len() || root.len() == 0 || root.last() == '/' || p[root.len() as int] == '/')
}

proof fn lemma_last_of(s: Seq<char>, c: char, r: Option<int>)
    requires
        match r {
            Some(k) => is_last(s, c, k),
            None => forall|j: int| 0 <= j < s.len() ==> s[j] != c,
        },
    ensures
        last_of(s, c) == r,
{
    if let Some(k) = r {
        let k2 = choose|k2: int| is_last(s, c, k2);
        assert(k == k2) by {
            if k < k2 {
                assert(s[k2] != c);
            } else if k2 < k {
                assert(s[k] != c);
            }
        }
    }
}

/// The last index of `c` in `s`.
pub fn find_last(s: &Vec<char>, c: char) -> (r: Option<usize>)
    ensures
        r matches Some(k) ==> is_last(s@, c, k as int) && last_of(s@, c) == Some(k as int),
        r is None ==> last_of(s@, c) is None,
{
    let mut i = s.len();
    while i > 0
        invariant
            i <= s@.len(),
            forall|j: int| i <= j < s@.len() ==> s@[j] != c,
        decreases i,
    {
        if s[i - 1] == c {
            proof {
                lemma_last_of(s@, c, Some(i - 1));
            }
            return Some(i - 1);
        }
        i = i - 1;
    }
    proof {
        lemma_last_of(s@, c, None);
    }
    None
}

/// The characters of `s` from `from` up to `to`, as a string.
pub fn slice_string(s: &str, from: usize, to: usize) -> (r: String)
    requires
        from <= to <= s@.len(),
    ensures
        r@ == s@.subrange(from as int, to as int),
{
    String::from_str(s.substring_char(from, to))
}

/// The last component of a path.
pub fn file_name_of(p: &str) -> (r: String)
    ensures
        r@ == file_name(p@),
{
    let v = crate::text::chars_of(p);
    let n = v.len();
    match find_last(&v, '/') {
        Some(k) => slice_string(p, k + 1, n),
        None => String::from_str(p),
    }
}

/// The path without its last component.
pub fn parent_of(p: &str) -> (r: String)
    ensures
        r@ == parent(p@),
{
    let v = crate::text::chars_of(p);
    match find_last(&v, '/') {
        Some(k) => {
            if k == 0 {
                slice_string(p, 0, 1)
            } else {
                slice_string(p, 0, k)
            }
        },
        None => String::new(),
    }
}

/// The extension of a file name.
pub fn extension_of(name: &str) -> (r: Option<String>)
    ensures
        match r {
            Some(e) => extension(name@) == Some(e@),
            None => extension(name@) is None,
        },
{
    let v = crate::text::chars_of(name);
    let n = v.len();
    match find_last(&v, '.') {
        Some(k) => {
            if k > 0 {
                Some(slice_string(name, k + 1, n))
            } else {
                None
            }
        },
        None => None,
    }
}

/// The file name without its extension.
pub fn file_stem_of(name: &str) -> (r: String)
    ensures
        r@ == file_stem(name@),
{
    let v = crate::text::chars_of(name);
    match find_last(&v, '.') {
        Some(k) => {
            if k > 0 {
                slice_string(name, 0, k)
            } else {
                String::from_str(name)
            }
        },
        None => String::from_str(name),
    }
}

/// Whether `p` is `root` or lies below it.
pub fn is_within(p: &str, root: &str) -> (r: bool)
    ensures
        r == within(p@, root@),
{
    let pv = crate::text::chars_of(p);
    let rv = crate::text::chars_of(root);
    if rv.len() > pv.len() {
        return false;
    }
    if !crate::text::matches_at(&pv, &rv, 0) {
        assert(pv@.subrange(0, rv@.len() as int) != rv@);
        return false;
    }
    pv.len() == rv.len() || rv.len() == 0 || rv[rv.len() - 1] == '/' || pv[rv.len()] == '/'
}

} // verus!
