//! What happens to an observed file, and what is known of it.
use vstd::prelude::*;
use crate::workflows::checkpointing::time::Timestamp;

verus! {

/// What is known of a file.
#[derive(Debug, Clone, PartialEq, Eq)]
pub struct FileMetadata {
    pub filename: String,
    pub path: String,
    pub mime_type: String,
    pub size: u64,
    pub created_at: Timestamp,
    pub modified_at: Timestamp,
}

impl FileMetadata {
    pub fn new(
        filename: String,
        path: String,
        mime_type: String,
        size: u64,
        created_at: Timestamp,
        modified_at: Timestamp,
    ) -> (r: Self)
        ensures
            r == (FileMetadata { filename, path, mime_type, size, created_at, modified_at }),
    {
        FileMetadata { filename, path, mime_type, size, created_at, modified_at }
    }

    /// A copy of the metadata.
    pub fn duplicate(&self) -> (r: Self)
        ensures
            same_metadata(r, *self),
    {
        FileMetadata {
            filename: self.filename.clone(),
            path: self.path.clone(),
            mime_type: self.mime_type.clone(),
            size: self.size,
            created_at: self.created_at,
            modified_at: self.modified_at,
        }
    }
}

/// `a` and `b` say the same of a file.
pub open spec fn same_metadata(a: FileMetadata, b: FileMetadata) -> bool {
    &&& a.filename@ == b.filename@
    &&& a.path@ == b.path@
    &&& a.mime_type@ == b.mime_type@
    &&& a.size == b.size
    &&& a.created_at == b.created_at
    &&& a.modified_at == b.modified_at
}

/// A file and its bytes.
#[derive(Debug, Clone, PartialEq, Eq)]
pub struct FileContent {
    pub metadata: FileMetadata,
    pub content: Vec<u8>,
}

/// `a` and `b` are the same file with the same bytes.
pub open spec fn same_content(a: FileContent, b: FileContent) -> bool {
    same_metadata(a.metadata, b.metadata) && a.content@ == b.content@
}

impl FileContent {
    pub fn new(metadata: FileMetadata, content: Vec<u8>) -> (r: Self)
        ensures
            r == (FileContent { metadata, content }),
    {
        FileContent { metadata, content }
    }

    /// A copy of the file and its bytes.
    pub fn duplicate(&self) -> (r: Self)
        ensures
            same_content(r, *self),
    {
        FileContent { metadata: self.metadata.duplicate(), content: self.content.clone() }
    }
}

/// A change to an observed file.
#[derive(Debug, Clone, PartialEq, Eq)]
pub enum FileEvent {
    Created(FileMetadata),
    Modified { filename: String, path: String, size: u64, modified_at: Timestamp },
    Deleted { filename: String, path: String, deleted_at: Timestamp },
}

} // verus!
