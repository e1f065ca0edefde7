use arce::error::{Error, Reason};
use arce::signal::NeedPublish;
use arce::site::{array2string, page_file, Category, Navigator, Page};

#[test]
fn many_marks_one_publish() {
    let mut s = NeedPublish::new(false);
    for _ in 0..5 {
        s.mark_dirty();
    }
    assert!(s.take_if_dirty());
    assert!(!s.take_if_dirty());
}

#[test]
fn failed_publish_retries() {
    let mut s = NeedPublish::new(true);
    assert!(s.take_if_dirty());
    s.publish_done(false);
    assert!(s.get());
    assert!(s.take_if_dirty());
    s.publish_done(true);
    assert!(!s.get());
    s.set(true);
    assert!(s.get());
}

#[test]
fn hex_text() {
    assert_eq!(array2string(&[0x00, 0x0f, 0xa5, 0xff]).unwrap(), "000fa5ff");
    assert_eq!(array2string(&[]).unwrap(), "");
}

#[test]
fn navigation_and_headers() {
    let n = Navigator::new(3, 1);
    assert!(!n.has_prev);
    assert!(n.has_next);
    assert_eq!(n.prev, "0.html");
    assert_eq!(n.next, "2.html");
    let n = Navigator::new(12, 12);
    assert!(n.has_prev && !n.has_next);
    assert_eq!(n.prev, "11.html");
    assert_eq!(page_file(120), "120.html");
    let p = Page::new(2, String::from("t"));
    assert_eq!(p.tcolor, vec!["grey", "grey", "black", "grey"]);
    let c = Category::new(String::from("Hello World"));
    assert_eq!(c.url, "category/hello-world.html");
    assert_eq!(c.title, "Hello World");
}

#[test]
fn error_text() {
    let e = Error::new(Reason::Database, String::from("locked"));
    assert_eq!(e.describe(), "Sqlite or R2d2 Error with message locked.");
    assert_eq!(Reason::DuplicateFolder.describe(), "Folder Already Registered");
}
