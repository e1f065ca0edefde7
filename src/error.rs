//! The library's error type.

use vstd::prelude::*;

verus! {

/// What went wrong, by the part of the system it came from.
#[derive(Clone, Copy, Debug, PartialEq, Eq, Structural)]
pub enum Reason {
    Database,
    ArticleRender,
    Filesystem,
    PictureProcess,
    DuplicateFolder,
    Internal,
}

/// The words that describe a reason.
pub open spec fn reason_text(r: Reason) -> Seq<char> {
    match r {
        Reason::Database => "Sqlite or R2d2 Error"@,
        Reason::Filesystem => "File Notification Error"@,
        Reason::Internal => "Tera or other Crates Error"@,
        Reason::PictureProcess => "Error Processing the Image"@,
        Reason::ArticleRender => "Error Rendering Markdown to HTML"@,
        Reason::DuplicateFolder => "Folder Already Registered"@,
    }
}

impl Reason {
    /// The words that describe this reason.
    pub fn describe(&self) -> (r: String)
        ensures
            r@ == reason_text(*self),
    {
        let s = match self {
            Reason::Database => "Sqlite or R2d2 Error",
            Reason::Filesystem => "File Notification Error",
            Reason::Internal => "Tera or other Crates Error",
            Reason::PictureProcess => "Error Processing the Image",
            Reason::ArticleRender => "Error Rendering Markdown to HTML",
            Reason::DuplicateFolder => "Folder Already Registered",
        };
        String::from_str(s)
    }
}

/// An error with its reason and a message.
#[derive(Clone, Debug)]
pub struct Error {
    pub reason: Reason,
    pub message: String,
}

impl Error {
    pub fn new(reason: Reason, message: String) -> (r: Self)
        ensures
            r.reason == reason,
            r.message == message,
    {
        Error { reason, message }
    }

    /// `<reason> with message <message>.`
    pub fn describe(&self) -> (r: String)
        ensures
            r@ == reason_text(self.reason) + " with message "@ + self.message@ + "."@,
    {
        let mut r = self.reason.describe();
        r.append(" with message ");
        r.append(self.message.as_str());
        r.append(".");
        r
    }
}

} // verus!
