use arce::manifest::{is_confirmed, picture_attributes, search_flag, search_text};
use arce::paths::{extension_of, file_name_of, file_stem_of, is_within, parent_of};

const MANIFEST: &str = "SELECTED[a.jpg]\nLINK[a.jpg]{http://x}\nTITLE[a.jpg]{Hello}\nDEPLOY";

#[test]
fn directives_for_named_file() {
    let a = picture_attributes(MANIFEST, "a.jpg").expect("a.jpg is not ignored");
    assert!(a.selected);
    assert_eq!(a.article_link, Some(String::from("http://x")));
    assert_eq!(a.title, "Hello");
}

#[test]
fn defaults_for_other_file() {
    let b = picture_attributes(MANIFEST, "b.jpg").expect("b.jpg is not ignored");
    assert!(!b.selected);
    assert_eq!(b.article_link, None);
    assert_eq!(b.title, "b");
}

#[test]
fn ignored_file_has_no_attributes() {
    let text = "IGNORE[c.png]\nSELECTED[c.png]\nDEPLOY";
    assert!(picture_attributes(text, "c.png").is_none());
    assert!(picture_attributes(text, "d.png").is_some());
}

#[test]
fn flags_match_file_names_literally() {
    assert!(search_flag("SELECTED", "a.jpg", "SELECTED[a.jpg]"));
    assert!(!search_flag("SELECTED", "a.jpg", "SELECTED[ba.jpg]"));
    assert!(!search_flag("SELECTED", "a.jpg", "SELECTED[axjpg]"));
    assert!(!search_flag("SELECTED", "a.jpg", ""));
}

#[test]
fn text_takes_first_directive_up_to_closing_brace() {
    let text = "TITLE[a.jpg]{One}TITLE[a.jpg]{Two}";
    assert_eq!(search_text("TITLE", "a.jpg", text), Some(String::from("One")));
    assert_eq!(search_text("TITLE", "a.jpg", "TITLE[a.jpg]{multi\nline}"), Some(String::from("multi\nline")));
    assert_eq!(search_text("TITLE", "a.jpg", "TITLE[a.jpg]{}"), Some(String::new()));
    assert_eq!(search_text("TITLE", "a.jpg", "TITLE[a.jpg]{unclosed"), None);
    assert_eq!(search_text("LINK", "a.jpg", "TITLE[a.jpg]{x}"), None);
}

#[test]
fn manifest_needs_marker() {
    assert!(is_confirmed(MANIFEST));
    assert!(!is_confirmed("SELECTED[a.jpg]"));
    assert!(!is_confirmed(""));
}

#[test]
fn path_pieces() {
    assert_eq!(file_name_of("/pics/trip/a.jpg"), "a.jpg");
    assert_eq!(file_name_of("a.jpg"), "a.jpg");
    assert_eq!(parent_of("/pics/trip/DEPLOY"), "/pics/trip");
    assert_eq!(parent_of("/DEPLOY"), "/");
    assert_eq!(parent_of("DEPLOY"), "");
    assert_eq!(extension_of("a.b.JPG"), Some(String::from("JPG")));
    assert_eq!(extension_of(".hidden"), None);
    assert_eq!(extension_of("noext"), None);
    assert_eq!(file_stem_of("a.b.JPG"), "a.b");
    assert_eq!(file_stem_of(".hidden"), ".hidden");
}

#[test]
fn within_compares_components() {
    assert!(is_within("/notes/a.md", "/notes"));
    assert!(is_within("/notes/a.md", "/notes/"));
    assert!(is_within("/notes", "/notes"));
    assert!(!is_within("/notes2/a.md", "/notes"));
    assert!(!is_within("/other/a.md", "/notes"));
}
