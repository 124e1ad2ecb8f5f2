//! The metadata store. The store itself is a relational engine that the
//! caller talks to; what is here is the file it may need before it can open,
//! and a model of its table, which says what the pipelines take the four
//! operations on it to do.

use vstd::prelude::*;
use vstd::string::*;
use crate::models::FileView;
use crate::text::{after_prefix, opt_chars, strip_prefix};
use crate::trusted::{parent_of, path_parent};

verus! {

/// The file behind a database URL, and the directory it lies in.
#[derive(Debug, PartialEq, Eq)]
pub struct DatabaseFile {
    pub path: String,
    pub parent: Option<String>,
}

/// The path behind a database URL of the scheme `sqlite:`; other URLs name
/// no file.
pub open spec fn sqlite_path(database_url: Seq<char>) -> Option<Seq<char>> {
    after_prefix(database_url, "sqlite:"@)
}

/// The file that must exist, in a directory that must exist, before a pool
/// of connections to `database_url` can be opened; none unless the URL is of
/// the scheme `sqlite:`.
pub fn database_file(database_url: &str) -> (file: Option<DatabaseFile>)
    ensures
        match file {
            Some(file) => sqlite_path(database_url@) == Some(file.path@) && opt_chars(file.parent)
                == parent_of(file.path@),
            None => sqlite_path(database_url@) is None,
        },
{
    match strip_prefix(database_url, "sqlite:") {
        Some(path) => {
            let parent = path_parent(path.as_str());
            Some(DatabaseFile { path, parent })
        },
        None => None,
    }
}

/// The table of file records, keyed by identifier.
pub struct Table {
    pub rows: Map<Seq<char>, FileView>,
}

impl Table {
    /// Every row lies under its own identifier: identifiers are unique.
    pub open spec fn well_formed(self) -> bool {
        forall|id: Seq<char>| #[trigger] self.rows.dom().contains(id) ==> self.rows[id].id == id
    }

    /// Whether `record` is a row of the table.
    pub open spec fn holds(self, record: FileView) -> bool {
        self.rows.dom().contains(record.id) && self.rows[record.id] == record
    }

    /// Inserting `record`: the table afterwards, and the row as persisted.
    /// An identifier that is already taken makes the insert fail.
    pub open spec fn create_file(self, record: FileView) -> (Table, Option<FileView>) {
        if self.rows.dom().contains(record.id) {
            (self, None)
        } else {
            (Table { rows: self.rows.insert(record.id, record) }, Some(record))
        }
    }

    /// The row with the identifier `id`, private or not.
    pub open spec fn get_file_by_id(self, id: Seq<char>) -> Option<FileView> {
        if self.rows.dom().contains(id) {
            Some(self.rows[id])
        } else {
            None
        }
    }

    /// Whether `listed` answers a query for `limit` records, `limit` being
    /// none or more: public rows of the table, none twice, newest first, no
    /// more than `limit` of them, and none left out that is newer than a
    /// listed one or that the limit had room for.
    pub open spec fn get_files(self, limit: i64, listed: Seq<FileView>) -> bool {
        &&& 0 <= limit
        &&& listed.len() <= limit
        &&& forall|i: int|
            0 <= i < listed.len() ==> self.holds(#[trigger] listed[i]) && !listed[i].is_private
        &&& forall|i: int, j: int|
            0 <= i < j < listed.len() ==> (#[trigger] listed[i]).id != (#[trigger] listed[j]).id
        &&& forall|i: int, j: int|
            0 <= i < j < listed.len() ==> (#[trigger] listed[i]).created_at.is_at_or_after(
                (#[trigger] listed[j]).created_at,
            )
        &&& forall|id: Seq<char>|
            #[trigger] self.rows.dom().contains(id) && !self.rows[id].is_private
                && !listed.contains(self.rows[id]) ==> {
                &&& listed.len() == limit
                &&& forall|i: int|
                    0 <= i < listed.len() ==> (#[trigger] listed[i]).created_at.is_at_or_after(
                        self.rows[id].created_at,
                    )
            }
    }

    /// Deleting the row with the identifier `id`, unless it is private: the
    /// table afterwards, and whether a row went.
    pub open spec fn delete_file_by_id(self, id: Seq<char>) -> (Table, bool) {
        if self.rows.dom().contains(id) && !self.rows[id].is_private {
            (Table { rows: self.rows.remove(id) }, true)
        } else {
            (self, false)
        }
    }
}

} // verus!
