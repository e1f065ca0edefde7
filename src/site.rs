//! Small pieces of the rendered site: page headers, navigation and categories,
//! and hexadecimal text.

use vstd::prelude::*;
use crate::error::Error;

verus! {

/// The hexadecimal digits.
pub open spec fn hex_digits() -> Seq<char> {
    "0123456789abcdef"@
}

/// Each byte as two lowercase hexadecimal digits, high one first.
pub open spec fn hex_text(b: Seq<u8>) -> Seq<char>
    decreases b.len(),
{
    if b.len() == 0 {
        Seq::empty()
    } else {
        hex_text(b.drop_last()) + seq![hex_digits()[(b.last() / 16) as int], hex_digits()[(b.last() % 16) as int]]
    }
}

/// The decimal digits of a number, most significant first.
pub open spec fn decimal(n: nat) -> Seq<char>
    decreases n,
{
    if n < 10 {
        seq!["0123456789"@[n as int]]
    } else {
        decimal(n / 10) + seq!["0123456789"@[(n % 10) as int]]
    }
}

fn hex_digit(d: u8) -> (r: &'static str)
    requires
        d < 16,
    ensures
        r@ == seq![hex_digits()[d as int]],
{
    proof {
        reveal_strlit("0123456789abcdef");
    }
    let r = "0123456789abcdef".substring_char(d as usize, d as usize + 1);
    assert(r@ =~= seq![hex_digits()[d as int]]);
    r
}

/// Writes bytes as hexadecimal text.
pub fn array2string(enc: &[u8]) -> (r: Result<String, Error>)
    ensures
        r matches Ok(s) && s@ == hex_text(enc@),
{
    let mut s = String::new();
    let mut i: usize = 0;
    assert(enc@.take(0) =~= Seq::<u8>::empty());
    while i < enc.len()
        invariant
            i <= enc@.len(),
            s@ == hex_text(enc@.take(i as int)),
        decreases enc@.len() - i,
    {
        s.append(hex_digit(enc[i] / 16));
        s.append(hex_digit(enc[i] % 16));
        assert(enc@.take(i + 1).drop_last() =~= enc@.take(i as int));
        i = i + 1;
    }
    assert(enc@.take(enc@.len() as int) =~= enc@);
    Ok(s)
}

fn append_decimal(s: &mut String, n: usize)
    ensures
        final(s)@ == old(s)@ + decimal(n as nat),
    decreases n,
{
    if n >= 10 {
        append_decimal(s, n / 10);
    }
    proof {
        reveal_strlit("0123456789");
    }
    let d = n % 10;
    let t = "0123456789".substring_char(d, d + 1);
    assert(t@ =~= seq!["0123456789"@[d as int]]);
    s.append(t);
    assert(final(s)@ =~= old(s)@ + decimal(n as nat));
}

/// `<n>.html`.
pub fn page_file(n: usize) -> (r: String)
    ensures
        r@ == decimal(n as nat) + ".html"@,
{
    let mut s = String::new();
    append_decimal(&mut s, n);
    s.append(".html");
    s
}

/// The header of a page: its title, and the colour of each of the four
/// navigation tabs, black for the current one and grey for the others.
#[derive(Debug)]
pub struct Page {
    pub title: String,
    pub tcolor: Vec<String>,
}

impl Page {
    pub fn new(i: usize, s: String) -> (r: Self)
        ensures
            r.title == s,
            r.tcolor@.len() == 4,
            forall|x: int| 0 <= x < 4 ==> r.tcolor@[x]@ == (if x == i { "black"@ } else { "grey"@ }),
    {
        let mut v: Vec<String> = Vec::new();
        let mut x: usize = 0;
        while x < 4
            invariant
                x <= 4,
                v@.len() == x,
                forall|k: int| 0 <= k < x ==> v@[k]@ == (if k == i { "black"@ } else { "grey"@ }),
            decreases 4 - x,
        {
            if i == x {
                v.push(String::from_str("black"));
            } else {
                v.push(String::from_str("grey"));
            }
            x = x + 1;
        }
        Page { title: s, tcolor: v }
    }
}

/// Links to the previous and next pages of a listing.
#[derive(Debug)]
pub struct Navigator {
    pub has_prev: bool,
    pub has_next: bool,
    pub prev: String,
    pub next: String,
}

impl Navigator {
    /// The navigation of page `now` of `total`, counted from one.
    pub fn new(total: usize, now: usize) -> (r: Self)
        requires
            1 <= now < usize::MAX,
        ensures
            r.has_prev == (now != 1),
            r.has_next == (now != total),
            r.prev@ == decimal((now - 1) as nat) + ".html"@,
            r.next@ == decimal((now + 1) as nat) + ".html"@,
    {
        Navigator { has_prev: now != 1, has_next: now != total, prev: page_file(now - 1), next: page_file(now + 1) }
    }
}

/// The slug of a text: lowercase ASCII words joined by dashes.
pub uninterp spec fn slug_of(s: Seq<char>) -> Seq<char>;

/// Relies on `slug::slugify`: the slug of the text, which depends on the text alone.
#[verifier::external_body]
fn slugify_text(s: &str) -> (r: String)
    ensures
        r@ == slug_of(s@),
{
    slug::slugify(s)
}

/// A category of articles and the address of its page.
#[derive(Debug)]
pub struct Category {
    pub title: String,
    pub url: String,
}

impl Category {
    /// The category `s`, whose page is `category/<slug>.html`.
    pub fn new(s: String) -> (r: Self)
        ensures
            r.title == s,
            r.url@ == "category/"@ + slug_of(s@) + ".html"@,
    {
        let mut url = String::from_str("category/");
        let slug = slugify_text(s.as_str());
        url.append(slug.as_str());
        url.append(".html");
        Category { url, title: s }
    }
}

} // verus!
