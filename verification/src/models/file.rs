//! The file record, the sole persisted entity, and the forms in which the
//! service hands it to clients.

use vstd::prelude::*;
use vstd::string::*;
use crate::trusted::{current_time, fresh_token, is_token};

verus! {

/// A point in time: whole seconds since the Unix epoch, and the nanoseconds
/// within that second.
#[derive(Clone, Copy, Debug, PartialEq, Eq, Structural)]
pub struct Timestamp {
    pub secs: i64,
    pub nanos: u32,
}

impl Timestamp {
    /// Whether `self` is strictly later than `other`.
    pub open spec fn is_after(self, other: Timestamp) -> bool {
        self.secs > other.secs || (self.secs == other.secs && self.nanos > other.nanos)
    }

    /// Whether `self` is no earlier than `other`.
    pub open spec fn is_at_or_after(self, other: Timestamp) -> bool {
        self == other || self.is_after(other)
    }
}

/// The metadata of one stored file.
#[derive(Debug, PartialEq, Eq)]
pub struct File {
    /// Unique identifier, generated at creation.
    pub id: String,
    /// Where the bytes live, in the terms of the backend that wrote them.
    pub path: String,
    /// The name that the client gave the file.
    pub name: String,
    /// The length of the content in bytes.
    pub size: i64,
    /// The tag of the backend that wrote the content.
    pub storage_type: String,
    /// Private records are invisible to listing, retrieval and deletion.
    pub is_private: bool,
    pub created_at: Timestamp,
    pub updated_at: Timestamp,
}

/// A file record as a mathematical value.
pub struct FileView {
    pub id: Seq<char>,
    pub path: Seq<char>,
    pub name: Seq<char>,
    pub size: i64,
    pub storage_type: Seq<char>,
    pub is_private: bool,
    pub created_at: Timestamp,
    pub updated_at: Timestamp,
}

impl View for File {
    type V = FileView;

    open spec fn view(&self) -> FileView {
        FileView {
            id: self.id@,
            path: self.path@,
            name: self.name@,
            size: self.size,
            storage_type: self.storage_type@,
            is_private: self.is_private,
            created_at: self.created_at,
            updated_at: self.updated_at,
        }
    }
}

impl FileView {
    /// The record that an upload creates: public, and created and updated at
    /// the same instant.
    pub open spec fn created(
        id: Seq<char>,
        path: Seq<char>,
        name: Seq<char>,
        size: i64,
        storage_type: Seq<char>,
        now: Timestamp,
    ) -> FileView {
        FileView {
            id,
            path,
            name,
            size,
            storage_type,
            is_private: false,
            created_at: now,
            updated_at: now,
        }
    }

    /// What a listing shows of the record.
    pub open spec fn summary(self) -> FileResponseView {
        FileResponseView {
            id: self.id,
            name: self.name,
            size: self.size,
            storage_type: self.storage_type,
            created_at: self.created_at,
        }
    }
}

impl Clone for File {
    fn clone(&self) -> (copy: Self)
        ensures
            copy == *self,
    {
        File {
            id: self.id.clone(),
            path: self.path.clone(),
            name: self.name.clone(),
            size: self.size,
            storage_type: self.storage_type.clone(),
            is_private: self.is_private,
            created_at: self.created_at,
            updated_at: self.updated_at,
        }
    }
}

impl File {
    /// A new public record with the given identifier and creation time.
    pub fn with_identity(
        id: String,
        path: String,
        name: String,
        size: i64,
        storage_type: String,
        now: Timestamp,
    ) -> (file: File)
        ensures
            file@ == FileView::created(id@, path@, name@, size, storage_type@, now),
    {
        File {
            id,
            path,
            name,
            size,
            storage_type,
            is_private: false,
            created_at: now,
            updated_at: now,
        }
    }

    /// A new public record with a freshly drawn identifier, created now.
    pub fn new(path: String, name: String, size: i64, storage_type: String) -> (file: File)
        ensures
            is_token(file@.id),
            file@ == FileView::created(
                file@.id,
                path@,
                name@,
                size,
                storage_type@,
                file@.created_at,
            ),
    {
        let now = current_time();
        let id = fresh_token();
        File::with_identity(id, path, name, size, storage_type, now)
    }
}

/// The reduced form of a record that listings show: the internal locator and
/// the visibility flag are left out.
#[derive(Debug, PartialEq, Eq)]
pub struct FileResponse {
    pub id: String,
    pub name: String,
    pub size: i64,
    pub storage_type: String,
    pub created_at: Timestamp,
}

/// A listing entry as a mathematical value.
pub struct FileResponseView {
    pub id: Seq<char>,
    pub name: Seq<char>,
    pub size: i64,
    pub storage_type: Seq<char>,
    pub created_at: Timestamp,
}

impl View for FileResponse {
    type V = FileResponseView;

    open spec fn view(&self) -> FileResponseView {
        FileResponseView {
            id: self.id@,
            name: self.name@,
            size: self.size,
            storage_type: self.storage_type@,
            created_at: self.created_at,
        }
    }
}

impl From<File> for FileResponse {
    fn from(file: File) -> (response: Self) {
        FileResponse {
            id: file.id,
            name: file.name,
            size: file.size,
            storage_type: file.storage_type,
            created_at: file.created_at,
        }
    }
}

impl vstd::std_specs::convert::FromSpecImpl<File> for FileResponse {
    open spec fn obeys_from_spec() -> bool {
        true
    }

    open spec fn from_spec(file: File) -> Self {
        FileResponse {
            id: file.id,
            name: file.name,
            size: file.size,
            storage_type: file.storage_type,
            created_at: file.created_at,
        }
    }
}

/// The summaries of a list of records, in order.
pub open spec fn summaries(files: Seq<FileView>) -> Seq<FileResponseView> {
    files.map_values(|f: FileView| f.summary())
}

/// The views of a list of records, in order.
pub open spec fn file_views(files: Seq<File>) -> Seq<FileView> {
    files.map_values(|f: File| f@)
}

/// The views of a list of listing entries, in order.
pub open spec fn response_views(entries: Seq<FileResponse>) -> Seq<FileResponseView> {
    entries.map_values(|e: FileResponse| e@)
}

/// What a successful upload returns.
#[derive(Debug, PartialEq, Eq)]
pub struct UploadResponse {
    /// The path under which the service serves the file.
    pub file_path: String,
    pub storage_type: String,
    /// The record as persisted.
    pub data: File,
}

/// An upload response as a mathematical value.
pub struct UploadResponseView {
    pub file_path: Seq<char>,
    pub storage_type: Seq<char>,
    pub data: FileView,
}

impl View for UploadResponse {
    type V = UploadResponseView;

    open spec fn view(&self) -> UploadResponseView {
        UploadResponseView {
            file_path: self.file_path@,
            storage_type: self.storage_type@,
            data: self.data@,
        }
    }
}

} // verus!
