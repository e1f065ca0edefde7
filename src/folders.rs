//! The folders that are watched.

use vstd::prelude::*;

verus! {

/// A folder of articles: where it is, the label under which its articles are
/// published, and whether an article needs the confirmation marker.
#[derive(Debug)]
pub struct ArticleFolder {
    pub path: String,
    pub deploy: String,
    pub need_confirm: bool,
}

/// A folder of pictures, watched with its subdirectories.
#[derive(Debug)]
pub struct PictureFolder {
    pub path: String,
}

impl ArticleFolder {
    /// A copy of this registration.
    pub fn duplicate(&self) -> (r: Self)
        ensures
            r.path@ == self.path@,
            r.deploy@ == self.deploy@,
            r.need_confirm == self.need_confirm,
    {
        ArticleFolder { path: self.path.clone(), deploy: self.deploy.clone(), need_confirm: self.need_confirm }
    }
}

impl PictureFolder {
    /// A copy of this registration.
    pub fn duplicate(&self) -> (r: Self)
        ensures
            r.path@ == self.path@,
    {
        PictureFolder { path: self.path.clone() }
    }
}

} // verus!
