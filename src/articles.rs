//! Article records, and the rules that turn folder events into catalog changes.

use vstd::prelude::*;
use crate::catalog::{Catalog, articles_unique, key_at, keeps, same_key, upserted, without_path};
use crate::folders::ArticleFolder;
use crate::paths::{extension, file_name, within, extension_of, file_name_of, is_within};
use crate::text::{contains, contains_text};

verus! {

/// An article as the catalog holds it: its source file, the label it is
/// published under, and when it was last synchronised (Unix seconds).
#[derive(Debug)]
pub struct ArticleInfo {
    pub path: String,
    pub deploy_folder: String,
    pub time: u64,
}

/// The content of an article record.
pub struct ArticleRow {
    pub path: Seq<char>,
    pub deploy: Seq<char>,
    pub time: u64,
}

impl View for ArticleInfo {
    type V = ArticleRow;

    open spec fn view(&self) -> ArticleRow {
        ArticleRow { path: self.path@, deploy: self.deploy_folder@, time: self.time }
    }
}

impl ArticleInfo {
    /// The record of the article at `p`, published under `s`, synchronised at `time`.
    pub fn new(p: String, s: String, time: u64) -> (r: Self)
        ensures
            r.path == p,
            r.deploy_folder == s,
            r.time == time,
    {
        ArticleInfo { path: p, deploy_folder: s, time }
    }

    /// A copy of this record.
    pub fn duplicate(&self) -> (r: Self)
        ensures
            r@ == self@,
    {
        ArticleInfo { path: self.path.clone(), deploy_folder: self.deploy_folder.clone(), time: self.time }
    }
}

/// A full article, as it is rendered.
#[derive(Debug)]
pub struct Article {
    pub title: String,
    pub date: String,
    pub summary: String,
    pub url: String,
    pub category: String,
    pub headline: bool,
    pub content: String,
}

/// The front matter at the head of an article.
#[derive(Debug)]
pub struct ArticleYaml {
    pub title: String,
    pub path: Option<String>,
    pub date: String,
    pub category: Option<String>,
    pub headline: Option<bool>,
    pub summary: Option<String>,
}

/// The token an article must hold when its folder asks for confirmation.
pub const ARTICLE_MARKER: &'static str = "deploy: true";

/// The kind of a file-system event, as far as the watchers tell kinds apart.
#[derive(Clone, Copy, Debug, PartialEq, Eq, Structural)]
pub enum EventKind {
    CreateFile,
    Modify,
    RemoveFile,
    Other,
}

/// A file-system event: its kind and the paths it reports.
#[derive(Debug)]
pub struct FsEvent {
    pub kind: EventKind,
    pub paths: Vec<String>,
}

/// What was found at a path when its event was handled: whether it is a
/// regular file, and its text (empty when it could not be read).
#[derive(Debug)]
pub struct PathFacts {
    pub is_file: bool,
    pub text: String,
}

/// A change to apply for one article file.
#[derive(Debug)]
pub enum ArticleAction {
    Ingest { path: String, is_file: bool, text: String },
    Remove { path: String },
}

/// The content of an article action.
pub enum ArticleStep {
    Ingest(Seq<char>, bool, Seq<char>),
    Remove(Seq<char>),
}

impl View for ArticleAction {
    type V = ArticleStep;

    open spec fn view(&self) -> ArticleStep {
        match self {
            ArticleAction::Ingest { path, is_file, text } => ArticleStep::Ingest(path@, *is_file, text@),
            ArticleAction::Remove { path } => ArticleStep::Remove(path@),
        }
    }
}

/// The content of an article folder registration.
pub open spec fn folder_view(f: &ArticleFolder) -> (Seq<char>, Seq<char>, bool) {
    (f.path@, f.deploy@, f.need_confirm)
}

/// The steps an event asks for: a created file is ingested; a modification
/// reporting one path ingests it, one reporting two is a rename (the first path
/// removed, the second ingested); a removed file is removed; nothing else.
pub open spec fn article_steps(kind: EventKind, paths: Seq<Seq<char>>, facts: Seq<(bool, Seq<char>)>) -> Seq<ArticleStep> {
    match kind {
        EventKind::CreateFile => if paths.len() >= 1 {
            seq![ArticleStep::Ingest(paths[0], facts[0].0, facts[0].1)]
        } else {
            Seq::empty()
        },
        EventKind::Modify => if paths.len() == 1 {
            seq![ArticleStep::Ingest(paths[0], facts[0].0, facts[0].1)]
        } else if paths.len() >= 2 {
            seq![ArticleStep::Remove(paths[0]), ArticleStep::Ingest(paths[1], facts[1].0, facts[1].1)]
        } else {
            Seq::empty()
        },
        EventKind::RemoveFile => if paths.len() >= 1 {
            seq![ArticleStep::Remove(paths[0])]
        } else {
            Seq::empty()
        },
        EventKind::Other => Seq::empty(),
    }
}

/// A markdown file: a regular file whose extension is `md`.
pub open spec fn markdown(path: Seq<char>, is_file: bool) -> bool {
    is_file && extension(file_name(path)) == Some("md"@)
}

/// The folder takes the file at `path`: it lies under the folder, is markdown,
/// and holds the marker when the folder asks for confirmation.
pub open spec fn accepts(folder: (Seq<char>, Seq<char>, bool), path: Seq<char>, is_file: bool, text: Seq<char>) -> bool {
    &&& within(path, folder.0)
    &&& markdown(path, is_file)
    &&& (folder.2 ==> contains(text, ARTICLE_MARKER@))
}

/// The record an ingestion writes.
pub open spec fn article_row(folder: (Seq<char>, Seq<char>, bool), path: Seq<char>, now: u64) -> ArticleRow {
    ArticleRow { path, deploy: folder.1, time: now }
}

/// The article records after one step.
pub open spec fn step_rows(rows: Seq<ArticleRow>, folder: (Seq<char>, Seq<char>, bool), step: ArticleStep, now: u64) -> Seq<ArticleRow> {
    match step {
        ArticleStep::Ingest(p, is_file, text) => if accepts(folder, p, is_file, text) {
            upserted(rows, article_row(folder, p, now))
        } else {
            rows
        },
        ArticleStep::Remove(p) => without_path(rows, p),
    }
}

/// The article records after the steps, in order.
pub open spec fn steps_rows(rows: Seq<ArticleRow>, folder: (Seq<char>, Seq<char>, bool), steps: Seq<ArticleStep>, now: u64) -> Seq<ArticleRow>
    decreases steps.len(),
{
    if steps.len() == 0 {
        rows
    } else {
        step_rows(steps_rows(rows, folder, steps.drop_last(), now), folder, steps.last(), now)
    }
}

/// A step changes the catalog: a removal, or an ingestion the folder takes.
pub open spec fn step_changes(folder: (Seq<char>, Seq<char>, bool), step: ArticleStep) -> bool {
    match step {
        ArticleStep::Ingest(p, is_file, text) => accepts(folder, p, is_file, text),
        ArticleStep::Remove(_) => true,
    }
}

/// Whether a file is markdown.
pub fn is_markdown(path: &str, is_file: bool) -> (r: bool)
    ensures
        r == markdown(path@, is_file),
{
    if !is_file {
        return false;
    }
    let name = file_name_of(path);
    match extension_of(name.as_str()) {
        Some(e) => {
            let md = String::from_str("md");
            e == md
        },
        None => false,
    }
}

/// Whether an article's text holds the confirmation marker.
pub fn find_deploy_flag(text: &str) -> (r: bool)
    ensures
        r == contains(text@, ARTICLE_MARKER@),
{
    contains_text(text, ARTICLE_MARKER)
}

/// Whether the folder takes the file at `path`.
pub fn should_ingest(folder: &ArticleFolder, path: &str, is_file: bool, text: &str) -> (r: bool)
    ensures
        r == accepts(folder_view(folder), path@, is_file, text@),
{
    if !is_within(path, folder.path.as_str()) {
        return false;
    }
    if !is_markdown(path, is_file) {
        return false;
    }
    if folder.need_confirm && !find_deploy_flag(text) {
        return false;
    }
    true
}

/// The actions an event asks for, each ingestion with the facts of its path.
pub fn article_actions(event: &FsEvent, facts: &Vec<PathFacts>) -> (r: Vec<ArticleAction>)
    requires
        facts@.len() == event.paths@.len(),
    ensures
        r@.map_values(|a: ArticleAction| a@) == article_steps(
            event.kind,
            event.paths@.map_values(|s: String| s@),
            facts@.map_values(|f: PathFacts| (f.is_file, f.text@)),
        ),
{
    let ghost steps = article_steps(
        event.kind,
        event.paths@.map_values(|s: String| s@),
        facts@.map_values(|f: PathFacts| (f.is_file, f.text@)),
    );
    let n = event.paths.len();
    let mut r: Vec<ArticleAction> = Vec::new();
    match event.kind {
        EventKind::CreateFile => {
            if n >= 1 {
                r.push(ArticleAction::Ingest { path: event.paths[0].clone(), is_file: facts[0].is_file, text: facts[0].text.clone() });
            }
        },
        EventKind::Modify => {
            if n == 1 {
                r.push(ArticleAction::Ingest { path: event.paths[0].clone(), is_file: facts[0].is_file, text: facts[0].text.clone() });
            } else if n >= 2 {
                r.push(ArticleAction::Remove { path: event.paths[0].clone() });
                r.push(ArticleAction::Ingest { path: event.paths[1].clone(), is_file: facts[1].is_file, text: facts[1].text.clone() });
            }
        },
        EventKind::RemoveFile => {
            if n >= 1 {
                r.push(ArticleAction::Remove { path: event.paths[0].clone() });
            }
        },
        EventKind::Other => {},
    }
    assert(r@.map_values(|a: ArticleAction| a@) =~= steps);
    r
}

/// Ingests the file at `path` into the catalog if the folder takes it, with
/// `now` as its time of synchronisation. Returns whether the catalog changed.
pub fn ingest_article(catalog: &mut Catalog, folder: &ArticleFolder, path: &str, is_file: bool, text: &str, now: u64) -> (r: bool)
    requires
        old(catalog).wf(),
    ensures
        final(catalog).wf(),
        r == accepts(folder_view(folder), path@, is_file, text@),
        final(catalog).article_rows() == step_rows(
            old(catalog).article_rows(), folder_view(folder), ArticleStep::Ingest(path@, is_file, text@), now),
        final(catalog).picture_rows() == old(catalog).picture_rows(),
{
    if !should_ingest(folder, path, is_file, text) {
        return false;
    }
    catalog.upsert_article(ArticleInfo::new(String::from_str(path), folder.deploy.clone(), now));
    true
}

/// Removes every record of the file at `path`, whatever its label.
pub fn remove_article(catalog: &mut Catalog, path: &str)
    requires
        old(catalog).wf(),
    ensures
        final(catalog).wf(),
        final(catalog).article_rows() == without_path(old(catalog).article_rows(), path@),
        final(catalog).picture_rows() == old(catalog).picture_rows(),
{
    catalog.delete_article(path);
}

/// Applies the actions of one event, in order. Says of each whether it
/// changed the catalog; a publish is due when one did.
pub fn apply_article_actions(catalog: &mut Catalog, folder: &ArticleFolder, actions: &Vec<ArticleAction>, now: u64) -> (r: Vec<bool>)
    requires
        old(catalog).wf(),
    ensures
        final(catalog).wf(),
        final(catalog).article_rows() == steps_rows(
            old(catalog).article_rows(), folder_view(folder), actions@.map_values(|a: ArticleAction| a@), now),
        final(catalog).picture_rows() == old(catalog).picture_rows(),
        r@.len() == actions@.len(),
        forall|i: int| 0 <= i < r@.len() ==> r@[i] == step_changes(folder_view(folder), actions@[i]@),
{
    let ghost steps = actions@.map_values(|a: ArticleAction| a@);
    let ghost f = folder_view(folder);
    let mut changed: Vec<bool> = Vec::new();
    let mut i: usize = 0;
    assert(steps.subrange(0, 0) =~= Seq::<ArticleStep>::empty());
    assert(steps.len() == actions@.len());
    while i < actions.len()
        invariant
            i <= actions@.len(),
            steps.len() == actions@.len(),
            steps == actions@.map_values(|a: ArticleAction| a@),
            f == folder_view(folder),
            catalog.wf(),
            catalog.article_rows() == steps_rows(old(catalog).article_rows(), f, steps.subrange(0, i as int), now),
            catalog.picture_rows() == old(catalog).picture_rows(),
            changed@.len() == i,
            forall|k: int| 0 <= k < i ==> changed@[k] == step_changes(f, actions@[k]@),
        decreases actions@.len() - i,
    {
        assert(steps[i as int] == actions@[i as int]@);
        match &actions[i] {
            ArticleAction::Ingest { path, is_file, text } => {
                assert(steps[i as int] == ArticleStep::Ingest(path@, *is_file, text@));
                let c = ingest_article(catalog, folder, path.as_str(), *is_file, text.as_str(), now);
                changed.push(c);
            },
            ArticleAction::Remove { path } => {
                assert(steps[i as int] == ArticleStep::Remove(path@));
                remove_article(catalog, path.as_str());
                changed.push(true);
            },
        }
        let ghost next = steps.subrange(0, i + 1);
        assert(next.drop_last() =~= steps.subrange(0, i as int));
        assert(next.last() == steps[i as int]);
        i = i + 1;
    }
    assert(steps.subrange(0, actions@.len() as int) =~= steps);
    changed
}

/// The events that bring a folder's existing files in: one creation each.
pub fn catch_up_events(paths: Vec<String>) -> (r: Vec<FsEvent>)
    ensures
        r@.len() == paths@.len(),
        forall|i: int| 0 <= i < r@.len() ==> r@[i].kind == EventKind::CreateFile
            && r@[i].paths@.len() == 1 && r@[i].paths@[0]@ == paths@[i]@,
{
    let mut r: Vec<FsEvent> = Vec::new();
    for p in it: paths
        invariant
            r@.len() == it.index(),
            it.seq() == paths@,
            forall|i: int| 0 <= i < r@.len() ==> r@[i].kind == EventKind::CreateFile
                && r@[i].paths@.len() == 1 && r@[i].paths@[0]@ == paths@[i]@,
    {
        r.push(FsEvent { kind: EventKind::CreateFile, paths: vec![p] });
    }
    r
}

/// Exactly one record of the source file `p` under the label `d`.
pub open spec fn exactly_one(s: Seq<ArticleRow>, p: Seq<char>, d: Seq<char>) -> bool {
    exists|i: int| {
        &&& 0 <= i < s.len()
        &&& s[i].path == p && s[i].deploy == d
        &&& forall|j: int| 0 <= j < s.len() && j != i ==> !(s[j].path == p && s[j].deploy == d)
    }
}

proof fn lemma_upserted_parts(s: Seq<ArticleRow>, a: ArticleRow)
    requires
        articles_unique(s),
    ensures
        exists|i: int| 0 <= i < upserted(s, a).len() && upserted(s, a)[i] == a,
        forall|i: int| 0 <= i < upserted(s, a).len()
            ==> upserted(s, a)[i] == a || (i < s.len() && upserted(s, a)[i] == s[i]),
        exactly_one(upserted(s, a), a.path, a.deploy),
{
    let u = upserted(s, a);
    if exists|i: int| key_at(s, a, i) {
        let k = choose|i: int| key_at(s, a, i);
        assert(u[k] == a);
        assert forall|j: int| 0 <= j < u.len() && j != k implies !(u[j].path == a.path && u[j].deploy == a.deploy) by {
            if j < k {
                assert(!same_key(s[j], s[k]));
            } else {
                assert(!same_key(s[k], s[j]));
            }
        }
    } else {
        let k = s.len() as int;
        assert(u[k] == a);
        assert forall|j: int| 0 <= j < u.len() && j != k implies !(u[j].path == a.path && u[j].deploy == a.deploy) by {
            assert(!key_at(s, a, j));
        }
    }
}

/// A modification that reports two paths is a rename: it leaves the article
/// records as the removal of the first path followed by the creation of the
/// second does. No record of the first path is left, and the second has its
/// record when the folder takes it.
pub proof fn lemma_rename_equivalence(
    rows: Seq<ArticleRow>,
    folder: (Seq<char>, Seq<char>, bool),
    from: Seq<char>,
    to: Seq<char>,
    from_facts: (bool, Seq<char>),
    to_facts: (bool, Seq<char>),
    now: u64,
)
    requires
        articles_unique(rows),
    ensures
        steps_rows(rows, folder, article_steps(EventKind::Modify, seq![from, to], seq![from_facts, to_facts]), now)
            == steps_rows(
                steps_rows(rows, folder, article_steps(EventKind::RemoveFile, seq![from], seq![from_facts]), now),
                folder,
                article_steps(EventKind::CreateFile, seq![to], seq![to_facts]),
                now,
            ),
        from != to ==> forall|i: int| 0 <= i
            < steps_rows(rows, folder, article_steps(EventKind::Modify, seq![from, to], seq![from_facts, to_facts]), now).len()
            ==> steps_rows(rows, folder, article_steps(EventKind::Modify, seq![from, to], seq![from_facts, to_facts]), now)[i].path != from,
        accepts(folder, to, to_facts.0, to_facts.1) ==> exactly_one(
            steps_rows(rows, folder, article_steps(EventKind::Modify, seq![from, to], seq![from_facts, to_facts]), now),
            to,
            folder.1,
        ),
{
    reveal_with_fuel(steps_rows, 3);
    let remove = ArticleStep::Remove(from);
    let ingest = ArticleStep::Ingest(to, to_facts.0, to_facts.1);
    let both = article_steps(EventKind::Modify, seq![from, to], seq![from_facts, to_facts]);
    assert(both == seq![remove, ingest]);
    assert(both.drop_last() =~= seq![remove]);
    assert(seq![remove].drop_last() =~= Seq::<ArticleStep>::empty());
    assert(seq![ingest].drop_last() =~= Seq::<ArticleStep>::empty());
    let removed = without_path(rows, from);
    assert(steps_rows(rows, folder, seq![remove], now) == removed);
    assert forall|i: int| 0 <= i < removed.len() implies removed[i].path != from by {
        rows.lemma_filter_pred(keeps(from), i);
    }
    assert(articles_unique(removed)) by {
        lemma_filter_unique(rows, from);
    }
    if accepts(folder, to, to_facts.0, to_facts.1) {
        lemma_upserted_parts(removed, article_row(folder, to, now));
    }
}

proof fn lemma_filter_unique(s: Seq<ArticleRow>, p: Seq<char>)
    requires
        articles_unique(s),
    ensures
        articles_unique(s.filter(keeps(p))),
    decreases s.len(),
{
    reveal(Seq::filter);
    if s.len() > 0 {
        let init = s.drop_last();
        assert(articles_unique(init));
        lemma_filter_unique(init, p);
        let f = init.filter(keeps(p));
        if keeps(p)(s.last()) {
            assert forall|m: int| 0 <= m < f.len() implies !same_key(f[m], s.last()) by {
                assert(f.contains(f[m]));
                init.lemma_filter_contains_rev(keeps(p), f[m]);
                let k = choose|k: int| 0 <= k < init.len() && init[k] == f[m];
                assert(!same_key(s[k], s[s.len() - 1]));
            }
            let g = f.push(s.last());
            assert forall|x: int, y: int| 0 <= x < y < g.len() implies !same_key(g[x], g[y]) by {
                if y == f.len() {
                } else {
                }
            }
        }
    }
}

/// An article is not taken while its folder asks for confirmation and its text
/// lacks the marker: the records stay as they were. Once the marker is in the
/// text, ingesting it again leaves exactly one record of it under the folder's label.
pub proof fn lemma_confirmation_gating(
    rows: Seq<ArticleRow>,
    folder: (Seq<char>, Seq<char>, bool),
    path: Seq<char>,
    unmarked: Seq<char>,
    marked: Seq<char>,
    first: u64,
    second: u64,
)
    requires
        articles_unique(rows),
        folder.2,
        within(path, folder.0),
        markdown(path, true),
        !contains(unmarked, ARTICLE_MARKER@),
        contains(marked, ARTICLE_MARKER@),
    ensures
        step_rows(rows, folder, ArticleStep::Ingest(path, true, unmarked), first) == rows,
        exactly_one(step_rows(rows, folder, ArticleStep::Ingest(path, true, marked), second), path, folder.1),
{
    lemma_upserted_parts(rows, article_row(folder, path, second));
}

} // verus!
