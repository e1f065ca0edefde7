//! The per-directory manifest that selects, links, titles or ignores pictures.
//!
//! Its text holds directives such as `SELECTED[a.jpg]`, `IGNORE[b.png]`,
//! `LINK[a.jpg]{https://...}` and `TITLE[a.jpg]{Sunset}`, and the confirmation
//! marker without which its directory is not scanned. A directive names a file
//! literally.

use vstd::prelude::*;
use crate::paths::{file_stem, file_stem_of};
use crate::text::{chars_of, contains, contains_text, find_from, first_index, opt_view};

verus! {

/// The file name of a manifest.
pub const MANIFEST_FILE: &'static str = "DEPLOY";

/// The token a manifest must hold for its directory to be scanned.
pub const MANIFEST_MARKER: &'static str = "DEPLOY";

/// `flag[name]`, the form of a directive about the file `name`.
pub open spec fn flag_pattern(flag: Seq<char>, name: Seq<char>) -> Seq<char> {
    flag + seq!['['] + name + seq![']']
}

/// The manifest holds the directive `flag[name]`.
pub open spec fn has_flag(settings: Seq<char>, flag: Seq<char>, name: Seq<char>) -> bool {
    contains(settings, flag_pattern(flag, name))
}

/// The text of the first directive `flag[name]{text}`: what follows its first
/// `flag[name]{` up to the next `}`.
pub open spec fn flag_text(settings: Seq<char>, flag: Seq<char>, name: Seq<char>) -> Option<Seq<char>> {
    let pre = flag_pattern(flag, name) + seq!['{'];
    match first_index(settings, pre, 0) {
        Some(i) => match first_index(settings, seq!['}'], i + pre.len()) {
            Some(j) => Some(settings.subrange(i + pre.len(), j)),
            None => None,
        },
        None => None,
    }
}

/// What a manifest says of one picture file.
#[derive(Debug)]
pub struct PictureAttributes {
    pub selected: bool,
    pub article_link: Option<String>,
    pub title: String,
}

/// The attributes the manifest gives the file `name`: none when it is ignored;
/// otherwise selected or not, its link if any, and its title, which defaults to
/// the file name without extension.
pub open spec fn attributes_of(settings: Seq<char>, name: Seq<char>) -> Option<(bool, Option<Seq<char>>, Seq<char>)> {
    if has_flag(settings, "IGNORE"@, name) {
        None
    } else {
        Some((
            has_flag(settings, "SELECTED"@, name),
            flag_text(settings, "LINK"@, name),
            match flag_text(settings, "TITLE"@, name) {
                Some(t) => t,
                None => file_stem(name),
            },
        ))
    }
}

impl PictureAttributes {
    pub open spec fn view(&self) -> (bool, Option<Seq<char>>, Seq<char>) {
        (self.selected, opt_view(self.article_link), self.title@)
    }
}

fn flag_chars(flag: &str, file_name: &str) -> (r: Vec<char>)
    ensures
        r@ == flag_pattern(flag@, file_name@),
{
    let mut r = chars_of(flag);
    r.push('[');
    let mut n = chars_of(file_name);
    r.append(&mut n);
    r.push(']');
    r
}

/// Whether the manifest holds the directive `flag[file_name]`.
pub fn search_flag(flag: &str, file_name: &str, settings: &str) -> (r: bool)
    ensures
        r == has_flag(settings@, flag@, file_name@),
{
    let s = chars_of(settings);
    let pat = flag_chars(flag, file_name);
    match find_from(&s, &pat, 0) {
        Some(_) => true,
        None => false,
    }
}

/// The text of the first directive `flag[file_name]{text}` of the manifest.
pub fn search_text(flag: &str, file_name: &str, settings: &str) -> (r: Option<String>)
    ensures
        opt_view(r) == flag_text(settings@, flag@, file_name@),
{
    let s = chars_of(settings);
    let slen = s.len();
    let mut pre = flag_chars(flag, file_name);
    pre.push('{');
    let ghost gpre = flag_pattern(flag@, file_name@) + seq!['{'];
    assert(pre@ =~= gpre);
    match find_from(&s, &pre, 0) {
        Some(i) => {
            let start = i + pre.len();
            let close = vec!['}'];
            assert(close@ =~= seq!['}']);
            match find_from(&s, &close, start) {
                Some(j) => Some(crate::paths::slice_string(settings, start, j)),
                None => None,
            }
        },
        None => None,
    }
}

/// What the manifest says of the picture file `file_name`; `None` when it is ignored.
pub fn picture_attributes(settings: &str, file_name: &str) -> (r: Option<PictureAttributes>)
    ensures
        match r {
            Some(a) => attributes_of(settings@, file_name@) == Some(a.view()),
            None => attributes_of(settings@, file_name@) is None,
        },
{
    if search_flag("IGNORE", file_name, settings) {
        return None;
    }
    let selected = search_flag("SELECTED", file_name, settings);
    let article_link = search_text("LINK", file_name, settings);
    let title = match search_text("TITLE", file_name, settings) {
        Some(t) => t,
        None => file_stem_of(file_name),
    };
    Some(PictureAttributes { selected, article_link, title })
}

/// Whether a manifest's text holds the confirmation marker.
pub fn is_confirmed(text: &str) -> (r: bool)
    ensures
        r == contains(text@, MANIFEST_MARKER@),
{
    contains_text(text, MANIFEST_MARKER)
}

} // verus!
