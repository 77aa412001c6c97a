//! Entries of the shared file tree.
use vstd::prelude::*;

verus! {

/// A file or folder of the shared tree.
#[derive(Clone, Debug)]
pub struct FileEntry {
    pub name: String,
    pub path: String,
    pub physical_path: String,
    pub size: i64,
    pub type_code: Option<[u8; 4]>,
    pub creator_code: Option<[u8; 4]>,
    pub comment: Option<String>,
    pub is_folder: bool,
}

impl FileEntry {
    /// An empty file with the given name and path, and nothing else known.
    pub fn new(name: String, path: String) -> (r: Self)
        ensures
            r.name@ == name@,
            r.path@ == path@,
            r.physical_path@.len() == 0,
            r.size == 0,
            r.type_code is None,
            r.creator_code is None,
            r.comment is None,
            !r.is_folder,
    {
        FileEntry {
            name,
            path,
            physical_path: String::new(),
            size: 0,
            type_code: None,
            creator_code: None,
            comment: None,
            is_folder: false,
        }
    }
}

} // verus!
