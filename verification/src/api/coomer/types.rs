//! Creators, posts and files as the coomer service describes them.
use vstd::prelude::*;

verus! {

/// A creator.
pub struct CreatorInfo {
    pub id: String,
    pub name: String,
    pub service: String,
    pub favorited: u64,
}

impl Clone for CreatorInfo {
    fn clone(&self) -> (r: Self)
        ensures
            r == *self,
    {
        CreatorInfo {
            id: self.id.clone(),
            name: self.name.clone(),
            service: self.service.clone(),
            favorited: self.favorited,
        }
    }
}

/// A file of a post; `path` is relative to the site.
pub struct FileInfo {
    pub path: String,
}

impl Clone for FileInfo {
    fn clone(&self) -> (r: Self)
        ensures
            r == *self,
    {
        FileInfo { path: self.path.clone() }
    }
}

/// A post: its main file, if any, and its attachments.
pub struct PostInfo {
    pub file: Option<FileInfo>,
    pub attachments: Vec<FileInfo>,
}

} // verus!
