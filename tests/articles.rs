use arce::articles::{
    apply_article_actions, article_actions, find_deploy_flag, ingest_article, is_markdown, remove_article,
    catch_up_events, should_ingest, ArticleAction, EventKind, FsEvent, PathFacts,
};
use arce::catalog::Catalog;
use arce::folders::ArticleFolder;

fn folder(confirm: bool) -> ArticleFolder {
    ArticleFolder { path: String::from("/notes"), deploy: String::from("blog"), need_confirm: confirm }
}

fn facts(text: &str) -> PathFacts {
    PathFacts { is_file: true, text: String::from(text) }
}

fn event(kind: EventKind, paths: &[&str]) -> FsEvent {
    FsEvent { kind, paths: paths.iter().map(|p| String::from(*p)).collect() }
}

fn paths_of(c: &Catalog) -> Vec<(String, String)> {
    c.articles().iter().map(|a| (a.path.clone(), a.deploy_folder.clone())).collect()
}

#[test]
fn markdown_by_extension() {
    assert!(is_markdown("/notes/a.md", true));
    assert!(!is_markdown("/notes/a.md", false));
    assert!(!is_markdown("/notes/a.txt", true));
    assert!(!is_markdown("/notes/md", true));
}

#[test]
fn marker_found_anywhere() {
    assert!(find_deploy_flag("---\ntitle: x\ndeploy: true\n---"));
    assert!(!find_deploy_flag("deploy: false"));
}

#[test]
fn ingest_rejects_outside_root_and_non_markdown() {
    let f = folder(false);
    assert!(!should_ingest(&f, "/elsewhere/a.md", true, ""));
    assert!(!should_ingest(&f, "/notes/a.txt", true, ""));
    assert!(should_ingest(&f, "/notes/a.md", true, ""));
}

#[test]
fn confirmation_gates_ingestion() {
    let f = folder(true);
    let mut c = Catalog::new();
    assert!(!ingest_article(&mut c, &f, "/notes/a.md", true, "no marker here", 10));
    assert!(c.articles().is_empty());
    assert!(ingest_article(&mut c, &f, "/notes/a.md", true, "deploy: true", 11));
    assert!(ingest_article(&mut c, &f, "/notes/a.md", true, "deploy: true", 12));
    assert_eq!(c.articles().len(), 1);
    assert_eq!(c.articles()[0].time, 12);
}

#[test]
fn modify_with_two_paths_is_a_rename() {
    let f = folder(false);
    let ev = event(EventKind::Modify, &["/notes/old.md", "/notes/new.md"]);
    let fs = vec![PathFacts { is_file: false, text: String::new() }, facts("body")];
    let actions = article_actions(&ev, &fs);
    assert_eq!(actions.len(), 2);
    assert!(matches!(&actions[0], ArticleAction::Remove { path } if path == "/notes/old.md"));
    assert!(matches!(&actions[1], ArticleAction::Ingest { path, .. } if path == "/notes/new.md"));

    let mut renamed = Catalog::new();
    ingest_article(&mut renamed, &f, "/notes/old.md", true, "", 1);
    assert_eq!(apply_article_actions(&mut renamed, &f, &actions, 2), vec![true, true]);

    let mut separate = Catalog::new();
    ingest_article(&mut separate, &f, "/notes/old.md", true, "", 1);
    remove_article(&mut separate, "/notes/old.md");
    ingest_article(&mut separate, &f, "/notes/new.md", true, "body", 2);

    assert_eq!(paths_of(&renamed), vec![(String::from("/notes/new.md"), String::from("blog"))]);
    assert_eq!(paths_of(&renamed), paths_of(&separate));
}

#[test]
fn classification_of_other_events() {
    let one = vec![facts("x")];
    assert_eq!(article_actions(&event(EventKind::CreateFile, &["/notes/a.md"]), &one).len(), 1);
    assert_eq!(article_actions(&event(EventKind::Modify, &["/notes/a.md"]), &one).len(), 1);
    assert!(matches!(article_actions(&event(EventKind::RemoveFile, &["/notes/a.md"]), &one)[0], ArticleAction::Remove { .. }));
    assert!(article_actions(&event(EventKind::Other, &["/notes/a.md"]), &one).is_empty());
    assert!(article_actions(&event(EventKind::Modify, &[]), &vec![]).is_empty());
}

#[test]
fn removal_ignores_label() {
    let mut c = Catalog::new();
    let mut other = folder(false);
    other.deploy = String::from("notes");
    ingest_article(&mut c, &folder(false), "/notes/a.md", true, "", 1);
    ingest_article(&mut c, &other, "/notes/a.md", true, "", 1);
    ingest_article(&mut c, &folder(false), "/notes/b.md", true, "", 1);
    assert_eq!(c.articles().len(), 3);
    remove_article(&mut c, "/notes/a.md");
    assert_eq!(paths_of(&c), vec![(String::from("/notes/b.md"), String::from("blog"))]);
}

#[test]
fn ignored_events_change_nothing() {
    let mut c = Catalog::new();
    let actions = article_actions(&event(EventKind::Other, &["/notes/a.md"]), &vec![facts("")]);
    assert!(apply_article_actions(&mut c, &folder(false), &actions, 1).is_empty());
    let actions = article_actions(&event(EventKind::CreateFile, &["/notes/a.txt"]), &vec![facts("")]);
    assert_eq!(apply_article_actions(&mut c, &folder(false), &actions, 1), vec![false]);
    assert!(c.articles().is_empty());
}

#[test]
fn catch_up_creates_one_event_per_file() {
    let evs = catch_up_events(vec![String::from("/notes/a.md"), String::from("/notes/b.md")]);
    assert_eq!(evs.len(), 2);
    assert_eq!(evs[1].kind, EventKind::CreateFile);
    assert_eq!(evs[1].paths, vec![String::from("/notes/b.md")]);
}
