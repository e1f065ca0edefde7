//! The catalog: registered folders, article records and picture records.
//!
//! Articles are keyed by source path and label; pictures by content digest,
//! where a recompressed picture also answers to the digest of its original.

use vstd::prelude::*;
use crate::articles::{ArticleInfo, ArticleRow};
use crate::error::{Error, Reason};
use crate::folders::{ArticleFolder, PictureFolder};
use crate::pictures::{PhotographyPicture, PictureRow};
use crate::text::opt_is;

verus! {

/// Two article records share their key.
pub open spec fn same_key(a: ArticleRow, b: ArticleRow) -> bool {
    a.path == b.path && a.deploy == b.deploy
}

/// No two article records share a key.
pub open spec fn articles_unique(s: Seq<ArticleRow>) -> bool {
    forall|i: int, j: int| 0 <= i < j < s.len() ==> !same_key(s[i], s[j])
}

/// The record at `i` has the key of `a`.
pub open spec fn key_at(s: Seq<ArticleRow>, a: ArticleRow, i: int) -> bool {
    0 <= i < s.len() && same_key(s[i], a)
}

/// The records after `a` is inserted, or replaces the record with its key.
pub open spec fn upserted(s: Seq<ArticleRow>, a: ArticleRow) -> Seq<ArticleRow> {
    if exists|i: int| key_at(s, a, i) {
        s.update(choose|i: int| key_at(s, a, i), a)
    } else {
        s.push(a)
    }
}

/// The records that are not of the source file `p`.
pub open spec fn keeps(p: Seq<char>) -> spec_fn(ArticleRow) -> bool {
    |a: ArticleRow| a.path != p
}

/// The records after every record of the source file `p` is deleted.
pub open spec fn without_path(s: Seq<ArticleRow>, p: Seq<char>) -> Seq<ArticleRow> {
    s.filter(keeps(p))
}

/// A picture record answers to the digest `h`.
pub open spec fn identifies(r: PictureRow, h: Seq<char>) -> bool {
    r.hash == h || r.hash_old == Some(h)
}

/// Some picture record answers to `h`.
pub open spec fn registered(s: Seq<PictureRow>, h: Seq<char>) -> bool {
    exists|i: int| 0 <= i < s.len() && identifies(s[i], h)
}

/// `b` answers to no digest of `a`.
pub open spec fn disjoint(a: PictureRow, b: PictureRow) -> bool {
    &&& !identifies(b, a.hash)
    &&& (a.hash_old matches Some(o) ==> !identifies(b, o))
}

/// No digest is answered by two picture records.
pub open spec fn pictures_unique(s: Seq<PictureRow>) -> bool {
    forall|i: int, j: int| 0 <= i < s.len() && 0 <= j < s.len() && i != j ==> disjoint(s[i], s[j])
}

/// The stored path of the record that answers to `h`.
pub open spec fn lookup(s: Seq<PictureRow>, h: Seq<char>) -> Option<Seq<char>> {
    if registered(s, h) {
        Some(s[choose|i: int| 0 <= i < s.len() && identifies(s[i], h)].path)
    } else {
        None
    }
}

/// No record answers to a digest of `r` yet.
pub open spec fn admits(s: Seq<PictureRow>, r: PictureRow) -> bool {
    &&& !registered(s, r.hash)
    &&& (r.hash_old matches Some(o) ==> !registered(s, o))
}

/// The picture records after `r` is offered: added unless one of its digests
/// is already answered.
pub open spec fn inserted(s: Seq<PictureRow>, r: PictureRow) -> Seq<PictureRow> {
    if admits(s, r) {
        s.push(r)
    } else {
        s
    }
}

/// The stored path that answers for `r` once it is offered.
pub open spec fn resolved(s: Seq<PictureRow>, r: PictureRow) -> Seq<char> {
    if registered(s, r.hash) {
        lookup(s, r.hash).unwrap()
    } else if r.hash_old is Some && registered(s, r.hash_old.unwrap()) {
        lookup(s, r.hash_old.unwrap()).unwrap()
    } else {
        r.path
    }
}

proof fn lemma_lookup_at(s: Seq<PictureRow>, h: Seq<char>, i: int)
    requires
        pictures_unique(s),
        0 <= i < s.len(),
        identifies(s[i], h),
    ensures
        lookup(s, h) == Some(s[i].path),
{
    let j = choose|j: int| 0 <= j < s.len() && identifies(s[j], h);
    if j != i {
        assert(disjoint(s[i], s[j]));
    }
}

/// Offering a record keeps every digest answered by one record at most.
pub proof fn lemma_inserted_unique(s: Seq<PictureRow>, r: PictureRow)
    requires
        pictures_unique(s),
    ensures
        pictures_unique(inserted(s, r)),
{
    if admits(s, r) {
        let t = s.push(r);
        assert forall|i: int, j: int| 0 <= i < t.len() && 0 <= j < t.len() && i != j implies disjoint(t[i], t[j]) by {
            if i < s.len() && j < s.len() {
                assert(disjoint(s[i], s[j]));
            } else if i < s.len() {
                assert(!identifies(s[i], r.hash));
            } else {
                assert(!identifies(s[j], r.hash));
            }
        }
    }
}

/// The picture records after a scan meets a picture whose original has the
/// digest `original`: unchanged when a record answers to it, otherwise `r` is offered.
pub open spec fn ingested(s: Seq<PictureRow>, original: Seq<char>, r: PictureRow) -> Seq<PictureRow> {
    if registered(s, original) {
        s
    } else {
        inserted(s, r)
    }
}

/// Ingesting the same picture again changes nothing: the second record, made
/// from the same bytes, carries the same digests as the first. Each digest is
/// still answered by one record at most, and some record answers for the picture.
pub proof fn lemma_ingest_idempotent(s: Seq<PictureRow>, original: Seq<char>, r: PictureRow, again: PictureRow)
    requires
        pictures_unique(s),
        r.hash == original || r.hash_old == Some(original),
        r.hash_old matches Some(o) ==> o == original,
        again.hash == r.hash,
        again.hash_old == r.hash_old,
    ensures
        ingested(ingested(s, original, r), original, again) == ingested(s, original, r),
        pictures_unique(ingested(s, original, r)),
        registered(ingested(s, original, r), original) || registered(ingested(s, original, r), r.hash),
{
    lemma_inserted_unique(s, r);
    let once = ingested(s, original, r);
    if !registered(s, original) && admits(s, r) {
        assert(once[s.len() as int] == r);
        assert(registered(once, original));
    } else if !registered(s, original) {
        assert(once == s);
        assert(!admits(s, again));
    }
}

/// After a recompressed picture is recorded, its original's digest and its
/// stored digest both lead to its stored file.
pub proof fn lemma_hash_chain(s: Seq<PictureRow>, r: PictureRow, original: Seq<char>)
    requires
        pictures_unique(s),
        r.hash_old == Some(original),
        admits(s, r),
    ensures
        lookup(inserted(s, r), original) == Some(r.path),
        lookup(inserted(s, r), r.hash) == Some(r.path),
{
    lemma_inserted_unique(s, r);
    let t = inserted(s, r);
    assert(t[s.len() as int] == r);
    lemma_lookup_at(t, original, s.len() as int);
    lemma_lookup_at(t, r.hash, s.len() as int);
}

/// The content of an article folder registration.
pub open spec fn article_folder_row(f: ArticleFolder) -> (Seq<char>, Seq<char>, bool) {
    (f.path@, f.deploy@, f.need_confirm)
}

/// Registered folders, article records and picture records.
#[derive(Debug)]
pub struct Catalog {
    article_folders: Vec<ArticleFolder>,
    picture_folders: Vec<PictureFolder>,
    articles: Vec<ArticleInfo>,
    pictures: Vec<PhotographyPicture>,
}

impl Catalog {
    pub closed spec fn article_folder_rows(&self) -> Seq<(Seq<char>, Seq<char>, bool)> {
        self.article_folders@.map_values(|f: ArticleFolder| article_folder_row(f))
    }

    pub closed spec fn picture_folder_rows(&self) -> Seq<Seq<char>> {
        self.picture_folders@.map_values(|f: PictureFolder| f.path@)
    }

    pub closed spec fn article_rows(&self) -> Seq<ArticleRow> {
        self.articles@.map_values(|a: ArticleInfo| a@)
    }

    pub closed spec fn picture_rows(&self) -> Seq<PictureRow> {
        self.pictures@.map_values(|p: PhotographyPicture| p@)
    }

    /// Article keys are unique and picture digests answer to one record each.
    pub open spec fn wf(&self) -> bool {
        articles_unique(self.article_rows()) && pictures_unique(self.picture_rows())
    }

    /// An empty catalog.
    pub fn new() -> (r: Self)
        ensures
            r.wf(),
            r.article_folder_rows() == Seq::<(Seq<char>, Seq<char>, bool)>::empty(),
            r.picture_folder_rows() == Seq::<Seq<char>>::empty(),
            r.article_rows() == Seq::<ArticleRow>::empty(),
            r.picture_rows() == Seq::<PictureRow>::empty(),
    {
        let r = Catalog { article_folders: Vec::new(), picture_folders: Vec::new(), articles: Vec::new(), pictures: Vec::new() };
        assert(r.article_folder_rows() =~= Seq::<(Seq<char>, Seq<char>, bool)>::empty());
        assert(r.picture_folder_rows() =~= Seq::<Seq<char>>::empty());
        assert(r.article_rows() =~= Seq::<ArticleRow>::empty());
        assert(r.picture_rows() =~= Seq::<PictureRow>::empty());
        r
    }

    /// The registered article folders.
    pub fn article_folders(&self) -> (r: &Vec<ArticleFolder>)
        ensures
            r@.map_values(|f: ArticleFolder| article_folder_row(f)) == self.article_folder_rows(),
    {
        &self.article_folders
    }

    /// The registered picture folders.
    pub fn picture_folders(&self) -> (r: &Vec<PictureFolder>)
        ensures
            r@.map_values(|f: PictureFolder| f.path@) == self.picture_folder_rows(),
    {
        &self.picture_folders
    }

    /// The article records.
    pub fn articles(&self) -> (r: &Vec<ArticleInfo>)
        ensures
            r@.map_values(|a: ArticleInfo| a@) == self.article_rows(),
    {
        &self.articles
    }

    /// The picture records.
    pub fn pictures(&self) -> (r: &Vec<PhotographyPicture>)
        ensures
            r@.map_values(|p: PhotographyPicture| p@) == self.picture_rows(),
    {
        &self.pictures
    }

    /// Registers an article folder; a folder whose path is registered already is refused.
    pub fn add_article_folder(&mut self, f: ArticleFolder) -> (r: Result<(), Error>)
        ensures
            final(self).article_rows() == old(self).article_rows(),
            final(self).picture_rows() == old(self).picture_rows(),
            final(self).picture_folder_rows() == old(self).picture_folder_rows(),
            match r {
                Ok(_) => {
                    &&& forall|i: int| 0 <= i < old(self).article_folder_rows().len()
                        ==> old(self).article_folder_rows()[i].0 != f.path@
                    &&& final(self).article_folder_rows() == old(self).article_folder_rows().push(article_folder_row(f))
                },
                Err(e) => {
                    &&& exists|i: int| 0 <= i < old(self).article_folder_rows().len()
                        && old(self).article_folder_rows()[i].0 == f.path@
                    &&& e.reason == Reason::DuplicateFolder
                    &&& final(self).article_folder_rows() == old(self).article_folder_rows()
                },
            },
    {
        let mut i: usize = 0;
        while i < self.article_folders.len()
            invariant
                i <= self.article_folders@.len(),
                forall|k: int| 0 <= k < i ==> self.article_folder_rows()[k].0 != f.path@,
            decreases self.article_folders@.len() - i,
        {
            if self.article_folders[i].path == f.path {
                assert(self.article_folder_rows()[i as int].0 == f.path@);
                return Err(Error::new(Reason::DuplicateFolder, f.path));
            }
            i = i + 1;
        }
        let ghost before = self.article_folder_rows();
        self.article_folders.push(f);
        assert(self.article_folder_rows() =~= before.push(article_folder_row(f)));
        Ok(())
    }

    /// Registers a picture folder; a folder whose path is registered already is refused.
    pub fn add_picture_folder(&mut self, f: PictureFolder) -> (r: Result<(), Error>)
        ensures
            final(self).article_rows() == old(self).article_rows(),
            final(self).picture_rows() == old(self).picture_rows(),
            final(self).article_folder_rows() == old(self).article_folder_rows(),
            match r {
                Ok(_) => {
                    &&& !old(self).picture_folder_rows().contains(f.path@)
                    &&& final(self).picture_folder_rows() == old(self).picture_folder_rows().push(f.path@)
                },
                Err(e) => {
                    &&& old(self).picture_folder_rows().contains(f.path@)
                    &&& e.reason == Reason::DuplicateFolder
                    &&& final(self).picture_folder_rows() == old(self).picture_folder_rows()
                },
            },
    {
        let mut i: usize = 0;
        while i < self.picture_folders.len()
            invariant
                i <= self.picture_folders@.len(),
                forall|k: int| 0 <= k < i ==> self.picture_folder_rows()[k] != f.path@,
            decreases self.picture_folders@.len() - i,
        {
            if self.picture_folders[i].path == f.path {
                assert(self.picture_folder_rows()[i as int] == f.path@);
                return Err(Error::new(Reason::DuplicateFolder, f.path));
            }
            i = i + 1;
        }
        let ghost before = self.picture_folder_rows();
        self.picture_folders.push(f);
        assert(self.picture_folder_rows() =~= before.push(f.path@));
        Ok(())
    }

    /// Inserts an article record, or replaces the one with its key.
    pub fn upsert_article(&mut self, a: ArticleInfo)
        requires
            old(self).wf(),
        ensures
            final(self).wf(),
            final(self).article_rows() == upserted(old(self).article_rows(), a@),
            final(self).picture_rows() == old(self).picture_rows(),
            final(self).article_folder_rows() == old(self).article_folder_rows(),
            final(self).picture_folder_rows() == old(self).picture_folder_rows(),
    {
        let ghost rows = self.article_rows();
        let mut i: usize = 0;
        while i < self.articles.len()
            invariant
                i <= self.articles@.len(),
                self.article_rows() == rows,
                self.wf(),
                self.picture_rows() == old(self).picture_rows(),
                self.article_folder_rows() == old(self).article_folder_rows(),
                self.picture_folder_rows() == old(self).picture_folder_rows(),
                rows == old(self).article_rows(),
                forall|k: int| 0 <= k < i ==> !same_key(rows[k], a@),
            decreases self.articles@.len() - i,
        {
            if self.articles[i].path == a.path && self.articles[i].deploy_folder == a.deploy_folder {
                proof {
                    assert(key_at(rows, a@, i as int));
                    let j = choose|j: int| key_at(rows, a@, j);
                    if j < i {
                        assert(same_key(rows[j], rows[i as int]));
                    } else if j > i {
                        assert(same_key(rows[i as int], rows[j]));
                    }
                    assert(j == i);
                    assert(upserted(rows, a@) == rows.update(i as int, a@));
                }
                self.articles.set(i, a);
                assert(self.article_rows() =~= rows.update(i as int, a@));
                assert(self.picture_rows() == old(self).picture_rows());
                assert(articles_unique(self.article_rows())) by {
                    assert forall|x: int, y: int| 0 <= x < y < rows.len()
                        implies !same_key(rows.update(i as int, a@)[x], rows.update(i as int, a@)[y]) by {
                        assert(!same_key(rows[x], rows[y]));
                    }
                }
                return;
            }
            i = i + 1;
        }
        self.articles.push(a);
        assert(self.article_rows() =~= rows.push(a@));
        assert(!(exists|k: int| key_at(rows, a@, k)));
    }

    /// Deletes every article record of the source file `p`, whatever its label.
    pub fn delete_article(&mut self, p: &str)
        requires
            old(self).wf(),
        ensures
            final(self).wf(),
            final(self).article_rows() == without_path(old(self).article_rows(), p@),
            final(self).picture_rows() == old(self).picture_rows(),
            final(self).article_folder_rows() == old(self).article_folder_rows(),
            final(self).picture_folder_rows() == old(self).picture_folder_rows(),
    {
        let ghost rows = self.article_rows();
        let ps = String::from_str(p);
        let mut kept: Vec<ArticleInfo> = Vec::new();
        let mut i: usize = 0;
        while i < self.articles.len()
            invariant
                i <= self.articles@.len(),
                self.article_rows() == rows,
                articles_unique(rows),
                ps@ == p@,
                self.picture_rows() == old(self).picture_rows(),
                self.article_folder_rows() == old(self).article_folder_rows(),
                self.picture_folder_rows() == old(self).picture_folder_rows(),
                rows == old(self).article_rows(),
                kept@.map_values(|a: ArticleInfo| a@) == rows.subrange(0, i as int).filter(keeps(p@)),
                articles_unique(kept@.map_values(|a: ArticleInfo| a@)),
                forall|m: int, k: int| 0 <= m < kept@.len() && i <= k < rows.len()
                    ==> !same_key(kept@[m]@, rows[k]),
            decreases self.articles@.len() - i,
        {
            let ghost before = kept@.map_values(|a: ArticleInfo| a@);
            proof {
                reveal(Seq::filter);
                assert(rows.subrange(0, i + 1).drop_last() =~= rows.subrange(0, i as int));
            }
            if self.articles[i].path != ps {
                kept.push(self.articles[i].duplicate());
                assert(kept@.map_values(|a: ArticleInfo| a@) =~= before.push(rows[i as int]));
            }
            i = i + 1;
        }
        assert(rows.subrange(0, rows.len() as int) =~= rows);
        self.articles = kept;
    }

    /// Whether a picture record answers to the digest `hash`.
    pub fn is_registered(&self, hash: &str) -> (r: bool)
        ensures
            r == registered(self.picture_rows(), hash@),
    {
        match self.find_index(hash) {
            Some(_) => true,
            None => false,
        }
    }

    fn find_index(&self, hash: &str) -> (r: Option<usize>)
        ensures
            match r {
                Some(i) => i < self.picture_rows().len() && identifies(self.picture_rows()[i as int], hash@),
                None => !registered(self.picture_rows(), hash@),
            },
    {
        let h = String::from_str(hash);
        let mut i: usize = 0;
        while i < self.pictures.len()
            invariant
                i <= self.pictures@.len(),
                h@ == hash@,
                forall|k: int| 0 <= k < i ==> !identifies(self.picture_rows()[k], hash@),
            decreases self.pictures@.len() - i,
        {
            if self.pictures[i].hash == h || opt_is(&self.pictures[i].hash_old, &h) {
                return Some(i);
            }
            i = i + 1;
        }
        None
    }

    /// The stored path of the picture that answers to `hash`: the record whose
    /// digest it is, or whose original's digest it is.
    pub fn find_picture(&self, hash: &str) -> (r: Option<String>)
        requires
            self.wf(),
        ensures
            crate::text::opt_view(r) == lookup(self.picture_rows(), hash@),
    {
        match self.find_index(hash) {
            Some(i) => {
                proof {
                    lemma_lookup_at(self.picture_rows(), hash@, i as int);
                }
                Some(self.pictures[i].path.clone())
            },
            None => None,
        }
    }

    /// Offers a picture record: it is added unless a record answers to one of
    /// its digests already. Returns the stored path that answers for it.
    pub fn insert_photography_picture(&mut self, p: PhotographyPicture) -> (r: String)
        requires
            old(self).wf(),
        ensures
            final(self).wf(),
            final(self).picture_rows() == inserted(old(self).picture_rows(), p@),
            r@ == resolved(old(self).picture_rows(), p@),
            final(self).article_rows() == old(self).article_rows(),
            final(self).article_folder_rows() == old(self).article_folder_rows(),
            final(self).picture_folder_rows() == old(self).picture_folder_rows(),
    {
        let ghost rows = self.picture_rows();
        match self.find_index(p.hash.as_str()) {
            Some(i) => {
                proof {
                    lemma_lookup_at(rows, p@.hash, i as int);
                }
                return self.pictures[i].path.clone();
            },
            None => {},
        }
        match &p.hash_old {
            Some(o) => {
                match self.find_index(o.as_str()) {
                    Some(i) => {
                        proof {
                            lemma_lookup_at(rows, o@, i as int);
                        }
                        return self.pictures[i].path.clone();
                    },
                    None => {},
                }
            },
            None => {},
        }
        let r = p.path.clone();
        proof {
            lemma_inserted_unique(rows, p@);
        }
        self.pictures.push(p);
        assert(self.picture_rows() =~= rows.push(p@));
        r
    }
}

} // verus!
