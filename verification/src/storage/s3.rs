//! The backend that keeps content as objects in a bucket of an
//! S3-compatible store.

use vstd::prelude::*;
use vstd::string::*;
use crate::storage::naming::{unique_name_for, unique_name_with};
use crate::storage::{
    DeleteRequest, DeleteRequestView, FetchRequest, FetchRequestView, StorePlan, StorePlanView,
    StoreRequest, StoreRequestView,
};
use crate::text::{opt_chars, strip_leading, strip_leading_char};
use crate::trusted::{
    file_extension_of, fresh_token, guess_mime_type, is_token, mime_type_of, octet_stream,
};

verus! {

/// Storage in a bucket of an object store. How the store is reached is
/// settled once, when the client is built from these settings.
#[derive(Debug, PartialEq, Eq)]
pub struct S3Storage {
    bucket: String,
    region: Option<String>,
    endpoint_url: Option<String>,
    force_path_style: bool,
}

/// The settings of an object-store backend as a mathematical value.
pub struct S3StorageView {
    pub bucket: Seq<char>,
    pub region: Option<Seq<char>>,
    pub endpoint_url: Option<Seq<char>>,
    pub force_path_style: bool,
}

impl View for S3Storage {
    type V = S3StorageView;

    closed spec fn view(&self) -> S3StorageView {
        S3StorageView {
            bucket: self.bucket@,
            region: opt_chars(self.region),
            endpoint_url: opt_chars(self.endpoint_url),
            force_path_style: self.force_path_style,
        }
    }
}

impl Clone for S3Storage {
    fn clone(&self) -> (copy: Self)
        ensures
            copy == *self,
    {
        S3Storage {
            bucket: self.bucket.clone(),
            region: self.region.clone(),
            endpoint_url: self.endpoint_url.clone(),
            force_path_style: self.force_path_style,
        }
    }
}

/// The key of the object that holds the content of `filename`, with `token`
/// drawn for it.
pub open spec fn object_key(filename: Seq<char>, token: Seq<char>) -> Seq<char> {
    "uploads/"@ + unique_name_for(filename, token)
}

/// The write that stores `data` in `bucket` for the file name `filename`,
/// with `token` drawn for it. The content type is the one that the file name
/// suggests; the locator is the key.
pub open spec fn object_store_plan(
    bucket: Seq<char>,
    filename: Seq<char>,
    data: Seq<u8>,
    token: Seq<char>,
) -> StorePlanView {
    let key = object_key(filename, token);
    StorePlanView {
        locator: key,
        request: StoreRequestView::PutObject {
            bucket,
            key,
            content_type: mime_type_of(filename),
            data,
        },
    }
}

/// The key that a locator stands for: the locator itself, once any slashes
/// in front of it are taken off. A key that the backend made begins with
/// none.
pub open spec fn key_of_locator(path: Seq<char>) -> Seq<char> {
    strip_leading(path, '/')
}

impl S3Storage {
    /// A backend for `bucket`. A region, where given, overrides the one of the
    /// environment. A custom endpoint, as S3-compatible services need it, is
    /// addressed in path style.
    pub fn new(bucket: String, region: Option<String>, endpoint_url: Option<String>) -> (storage:
        Self)
        ensures
            storage@ == (S3StorageView {
                bucket: bucket@,
                region: opt_chars(region),
                endpoint_url: opt_chars(endpoint_url),
                force_path_style: endpoint_url is Some,
            }),
    {
        let force_path_style = endpoint_url.is_some();
        S3Storage { bucket, region, endpoint_url, force_path_style }
    }

    /// The name of the bucket.
    pub fn bucket(&self) -> (bucket: &str)
        ensures
            bucket@ == self@.bucket,
    {
        self.bucket.as_str()
    }

    /// The region to use in place of the environment's, if any.
    pub fn region(&self) -> (region: &Option<String>)
        ensures
            opt_chars(*region) == self@.region,
    {
        &self.region
    }

    /// The custom endpoint, if any.
    pub fn endpoint_url(&self) -> (endpoint_url: &Option<String>)
        ensures
            opt_chars(*endpoint_url) == self@.endpoint_url,
    {
        &self.endpoint_url
    }

    /// Whether objects are addressed in path style.
    pub fn force_path_style(&self) -> (force: bool)
        ensures
            force == self@.force_path_style,
    {
        self.force_path_style
    }

    /// The write for `filename` and `data` under the given token.
    pub fn store_file_as(&self, filename: &str, data: Vec<u8>, token: &str) -> (plan: StorePlan)
        ensures
            plan@ == object_store_plan(self@.bucket, filename@, data@, token@),
    {
        let name = unique_name_with(filename, token);
        let mut key = "uploads/".to_owned();
        key.append(name.as_str());
        let content_type = guess_mime_type(filename);
        StorePlan {
            locator: key.clone(),
            request: StoreRequest::PutObject {
                bucket: self.bucket.clone(),
                key,
                content_type,
                data,
            },
        }
    }

    /// The write for `filename` and `data`, under a freshly drawn token.
    pub fn store_file(&self, filename: &str, data: Vec<u8>) -> (plan: StorePlan)
        ensures
            exists|token: Seq<char>| #[trigger]
                is_token(token) && plan@ == object_store_plan(
                    self@.bucket,
                    filename@,
                    data@,
                    token,
                ),
    {
        let token = fresh_token();
        self.store_file_as(filename, data, token.as_str())
    }

    /// The read that fetches the object that `path` stands for.
    pub fn get_file(&self, path: &str) -> (request: FetchRequest)
        ensures
            request@ == (FetchRequestView::GetObject {
                bucket: self@.bucket,
                key: key_of_locator(path@),
            }),
    {
        FetchRequest::GetObject { bucket: self.bucket.clone(), key: strip_leading_char(path, '/') }
    }

    /// The removal of the object that `path` stands for.
    pub fn delete_file(&self, path: &str) -> (request: DeleteRequest)
        ensures
            request@ == (DeleteRequestView::DeleteObject {
                bucket: self@.bucket,
                key: key_of_locator(path@),
            }),
    {
        DeleteRequest::DeleteObject {
            bucket: self.bucket.clone(),
            key: strip_leading_char(path, '/'),
        }
    }

    /// The media type that the extension of `path` suggests;
    /// `application/octet-stream` where it has none.
    pub fn get_mime_type(&self, path: &str) -> (mime: String)
        ensures
            mime@ == mime_type_of(path@),
            file_extension_of(path@) is None ==> mime@ == octet_stream(),
    {
        guess_mime_type(path)
    }
}

} // verus!
