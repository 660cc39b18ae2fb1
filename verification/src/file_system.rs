//! Immutable snapshots of filesystem entries, as of the last directory
//! listing. The live filesystem is an external collaborator; the engine only
//! carries these values around.

use vstd::prelude::*;

verus! {

/// One entry of a directory listing, tagged by kind and carrying its path.
#[derive(Debug, PartialEq)]
pub enum FileSystemItem {
    Directory(String),
    File(String),
    Unknown,
}

impl Clone for FileSystemItem {
    fn clone(&self) -> (r: Self)
        ensures
            r == *self,
    {
        match self {
            FileSystemItem::Directory(p) => FileSystemItem::Directory(p.clone()),
            FileSystemItem::File(p) => FileSystemItem::File(p.clone()),
            FileSystemItem::Unknown => FileSystemItem::Unknown,
        }
    }
}

} // verus!
