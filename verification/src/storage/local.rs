//! The backend that keeps content in files under a root directory.

use vstd::prelude::*;
use vstd::string::*;
use crate::storage::naming::{unique_name_for, unique_name_with};
use crate::storage::{
    DeleteRequest, DeleteRequestView, FetchRequest, FetchRequestView, StorePlan, StorePlanView,
    StoreRequest, StoreRequestView,
};
use crate::text::chars_of;
use crate::trusted::{
    file_extension_of, fresh_token, guess_mime_type, is_token, mime_type_of, octet_stream,
    parent_of, path_parent,
};

verus! {

/// Storage in the local file system.
#[derive(Debug, PartialEq, Eq)]
pub struct LocalStorage {
    base_path: String,
}

impl Clone for LocalStorage {
    fn clone(&self) -> (copy: Self)
        ensures
            copy == *self,
    {
        LocalStorage { base_path: self.base_path.clone() }
    }
}

/// The path of the file `name` directly under the directory `root`: the two
/// with a slash between them, unless the root is empty or brings its own.
pub open spec fn path_under(root: Seq<char>, name: Seq<char>) -> Seq<char> {
    if root.len() == 0 || root.last() == '/' {
        root + name
    } else {
        root + "/"@ + name
    }
}

/// The write that stores `data` under the root `base` for the file name
/// `filename`, with `token` drawn for it: the file lies under the root, by
/// its unique name, and that path is the locator.
pub open spec fn local_store_plan(
    base: Seq<char>,
    filename: Seq<char>,
    data: Seq<u8>,
    token: Seq<char>,
) -> StorePlanView {
    let path = path_under(base, unique_name_for(filename, token));
    StorePlanView {
        locator: path,
        request: StoreRequestView::WriteFile { path, parent: parent_of(path), data },
    }
}

/// The path of the file `name` directly under the directory `root`.
pub fn join_under(root: &str, name: &str) -> (path: String)
    ensures
        path@ == path_under(root@, name@),
{
    let chars = chars_of(root);
    let mut path = root.to_owned();
    if chars.len() > 0 && chars[chars.len() - 1] != '/' {
        path.append("/");
    }
    path.append(name);
    path
}

impl LocalStorage {
    /// The root directory.
    pub closed spec fn root(&self) -> Seq<char> {
        self.base_path@
    }

    /// A backend that stores under `base_path`.
    pub fn new(base_path: String) -> (storage: Self)
        ensures
            storage.root() == base_path@,
    {
        LocalStorage { base_path }
    }

    /// The write for `filename` and `data` under the given token.
    pub fn store_file_as(&self, filename: &str, data: Vec<u8>, token: &str) -> (plan: StorePlan)
        ensures
            plan@ == local_store_plan(self.root(), filename@, data@, token@),
    {
        let name = unique_name_with(filename, token);
        let path = join_under(self.base_path.as_str(), name.as_str());
        let parent = path_parent(path.as_str());
        StorePlan {
            locator: path.clone(),
            request: StoreRequest::WriteFile { path, parent, data },
        }
    }

    /// The write for `filename` and `data`, under a freshly drawn token.
    pub fn store_file(&self, filename: &str, data: Vec<u8>) -> (plan: StorePlan)
        ensures
            exists|token: Seq<char>| #[trigger]
                is_token(token) && plan@ == local_store_plan(
                    self.root(),
                    filename@,
                    data@,
                    token,
                ),
    {
        let token = fresh_token();
        self.store_file_as(filename, data, token.as_str())
    }

    /// The read that fetches the content at `path`.
    pub fn get_file(&self, path: &str) -> (request: FetchRequest)
        ensures
            request@ == (FetchRequestView::ReadFile { path: path@ }),
    {
        FetchRequest::ReadFile { path: path.to_owned() }
    }

    /// The removal of the content at `path`.
    pub fn delete_file(&self, path: &str) -> (request: DeleteRequest)
        ensures
            request@ == (DeleteRequestView::RemoveFile { path: path@ }),
    {
        DeleteRequest::RemoveFile { path: path.to_owned() }
    }

    /// The media type that the extension of `path` suggests;
    /// `application/octet-stream` where it has none.
    pub fn get_mime_type(&self, path: &str) -> (mime: String)
        ensures
            mime@ == mime_type_of(path@),
            file_extension_of(path@) is None ==> mime@ == octet_stream(),
    {
        guess_mime_type(path)
    }
}

} // verus!
