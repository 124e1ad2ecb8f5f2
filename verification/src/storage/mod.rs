//! The storage abstraction: two backends, local disk and an S3-compatible
//! object store, behind one interface. A backend decides where bytes go and
//! which request reaches them; carrying the request out is left to the caller.

pub mod local;
pub mod naming;
pub mod s3;

pub use local::LocalStorage;
pub use s3::S3Storage;

use vstd::prelude::*;
use vstd::string::*;
use crate::config::{Config, ConfigError, ConfigView, StorageType};
use crate::storage::local::local_store_plan;
use crate::storage::s3::{key_of_locator, object_store_plan, S3StorageView};
use crate::text::opt_chars;
use crate::trusted::{file_extension_of, fresh_token, is_token, mime_type_of, octet_stream};

verus! {

/// A write that a backend asks for.
#[derive(Debug, PartialEq, Eq)]
pub enum StoreRequest {
    /// Create the directory `parent` and what lies above it, if one is named;
    /// create the file at `path` anew, write `data` to it and flush it to
    /// disk. Where a file is there already, the write fails and the file
    /// stays as it is.
    WriteFile { path: String, parent: Option<String>, data: Vec<u8> },
    /// Put `data` into the bucket under `key`, with the content type
    /// attached. Where the key is taken already, the write fails and the
    /// object stays as it is.
    PutObject { bucket: String, key: String, content_type: String, data: Vec<u8> },
}

/// A write as a mathematical value.
pub enum StoreRequestView {
    WriteFile { path: Seq<char>, parent: Option<Seq<char>>, data: Seq<u8> },
    PutObject { bucket: Seq<char>, key: Seq<char>, content_type: Seq<char>, data: Seq<u8> },
}

impl View for StoreRequest {
    type V = StoreRequestView;

    open spec fn view(&self) -> StoreRequestView {
        match *self {
            StoreRequest::WriteFile { path, parent, data } => StoreRequestView::WriteFile {
                path: path@,
                parent: opt_chars(parent),
                data: data@,
            },
            StoreRequest::PutObject {
                bucket,
                key,
                content_type,
                data,
            } => StoreRequestView::PutObject {
                bucket: bucket@,
                key: key@,
                content_type: content_type@,
                data: data@,
            },
        }
    }
}

/// What a backend decides about a write: the request to carry out, and the
/// locator to record for the content once the write has succeeded.
#[derive(Debug, PartialEq, Eq)]
pub struct StorePlan {
    pub locator: String,
    pub request: StoreRequest,
}

/// A store plan as a mathematical value.
pub struct StorePlanView {
    pub locator: Seq<char>,
    pub request: StoreRequestView,
}

impl View for StorePlan {
    type V = StorePlanView;

    open spec fn view(&self) -> StorePlanView {
        StorePlanView { locator: self.locator@, request: self.request@ }
    }
}

/// A read that a backend asks for: the whole content, into memory.
#[derive(Debug, PartialEq, Eq)]
pub enum FetchRequest {
    ReadFile { path: String },
    GetObject { bucket: String, key: String },
}

/// A read as a mathematical value.
pub enum FetchRequestView {
    ReadFile { path: Seq<char> },
    GetObject { bucket: Seq<char>, key: Seq<char> },
}

impl View for FetchRequest {
    type V = FetchRequestView;

    open spec fn view(&self) -> FetchRequestView {
        match *self {
            FetchRequest::ReadFile { path } => FetchRequestView::ReadFile { path: path@ },
            FetchRequest::GetObject { bucket, key } => FetchRequestView::GetObject {
                bucket: bucket@,
                key: key@,
            },
        }
    }
}

/// A removal that a backend asks for.
#[derive(Debug, PartialEq, Eq)]
pub enum DeleteRequest {
    RemoveFile { path: String },
    DeleteObject { bucket: String, key: String },
}

/// A removal as a mathematical value.
pub enum DeleteRequestView {
    RemoveFile { path: Seq<char> },
    DeleteObject { bucket: Seq<char>, key: Seq<char> },
}

impl View for DeleteRequest {
    type V = DeleteRequestView;

    open spec fn view(&self) -> DeleteRequestView {
        match *self {
            DeleteRequest::RemoveFile { path } => DeleteRequestView::RemoveFile { path: path@ },
            DeleteRequest::DeleteObject { bucket, key } => DeleteRequestView::DeleteObject {
                bucket: bucket@,
                key: key@,
            },
        }
    }
}

/// The storage backend of a deployment: one of the two, chosen once from the
/// configuration.
#[derive(Debug, PartialEq, Eq)]
pub enum Storage {
    Local(LocalStorage),
    S3(S3Storage),
}

/// A backend as a mathematical value.
pub enum StorageView {
    Local { root: Seq<char> },
    S3(S3StorageView),
}

impl View for Storage {
    type V = StorageView;

    open spec fn view(&self) -> StorageView {
        match *self {
            Storage::Local(local) => StorageView::Local { root: local.root() },
            Storage::S3(s3) => StorageView::S3(s3@),
        }
    }
}

impl Clone for Storage {
    fn clone(&self) -> (copy: Self)
        ensures
            copy == *self,
    {
        match self {
            Storage::Local(local) => Storage::Local(local.clone()),
            Storage::S3(s3) => Storage::S3(s3.clone()),
        }
    }
}

impl StorageView {
    /// The backend that a configuration selects. The object store cannot be
    /// built without a bucket.
    pub open spec fn from_config(config: ConfigView) -> Result<StorageView, ConfigError> {
        match config.storage_type {
            StorageType::Local => Ok(StorageView::Local { root: config.storage_path }),
            StorageType::S3 => match config.s3_bucket {
                Some(bucket) => Ok(
                    StorageView::S3(
                        S3StorageView {
                            bucket,
                            region: config.s3_region,
                            endpoint_url: config.aws_endpoint_url,
                            force_path_style: config.aws_endpoint_url is Some,
                        },
                    ),
                ),
                None => Err(ConfigError::BucketNotConfigured),
            },
        }
    }

    /// The tag that records carry for content written by this backend.
    pub open spec fn tag(self) -> Seq<char> {
        match self {
            StorageView::Local { .. } => "local"@,
            StorageView::S3(_) => "s3"@,
        }
    }

    /// The write for `filename` and `data`, with `token` drawn for it.
    pub open spec fn store_plan(self, filename: Seq<char>, data: Seq<u8>, token: Seq<char>)
        -> StorePlanView {
        match self {
            StorageView::Local { root } => local_store_plan(root, filename, data, token),
            StorageView::S3(s3) => object_store_plan(s3.bucket, filename, data, token),
        }
    }

    /// The read that fetches the content behind the locator `path`.
    pub open spec fn fetch_request(self, path: Seq<char>) -> FetchRequestView {
        match self {
            StorageView::Local { .. } => FetchRequestView::ReadFile { path },
            StorageView::S3(s3) => FetchRequestView::GetObject {
                bucket: s3.bucket,
                key: key_of_locator(path),
            },
        }
    }

    /// The removal of the content behind the locator `path`.
    pub open spec fn delete_request(self, path: Seq<char>) -> DeleteRequestView {
        match self {
            StorageView::Local { .. } => DeleteRequestView::RemoveFile { path },
            StorageView::S3(s3) => DeleteRequestView::DeleteObject {
                bucket: s3.bucket,
                key: key_of_locator(path),
            },
        }
    }
}

impl Storage {
    /// The backend that `config` selects.
    pub fn from_config(config: &Config) -> (result: Result<Storage, ConfigError>)
        ensures
            match result {
                Ok(storage) => StorageView::from_config(config@) == Ok::<StorageView, ConfigError>(
                    storage@,
                ),
                Err(error) => StorageView::from_config(config@) == Err::<StorageView, ConfigError>(
                    error,
                ),
            },
    {
        match config.storage_type {
            StorageType::Local => Ok(Storage::Local(LocalStorage::new(config.storage_path.clone()))),
            StorageType::S3 => match &config.s3_bucket {
                Some(bucket) => Ok(
                    Storage::S3(
                        S3Storage::new(
                            bucket.clone(),
                            config.s3_region.clone(),
                            config.aws_endpoint_url.clone(),
                        ),
                    ),
                ),
                None => Err(ConfigError::BucketNotConfigured),
            },
        }
    }

    /// The write for `filename` and `data` under the given token.
    pub fn store_file_as(&self, filename: &str, data: Vec<u8>, token: &str) -> (plan: StorePlan)
        ensures
            plan@ == self@.store_plan(filename@, data@, token@),
    {
        match self {
            Storage::Local(storage) => storage.store_file_as(filename, data, token),
            Storage::S3(storage) => storage.store_file_as(filename, data, token),
        }
    }

    /// The write for `filename` and `data`, under a freshly drawn token. The
    /// token is there to make the locator one that no earlier write was
    /// given; should it be taken all the same, the write fails.
    pub fn store_file(&self, filename: &str, data: Vec<u8>) -> (plan: StorePlan)
        ensures
            exists|token: Seq<char>| #[trigger]
                is_token(token) && plan@ == self@.store_plan(filename@, data@, token),
    {
        let token = fresh_token();
        self.store_file_as(filename, data, token.as_str())
    }

    /// The read that fetches the content behind the locator `path`.
    pub fn get_file(&self, path: &str) -> (request: FetchRequest)
        ensures
            request@ == self@.fetch_request(path@),
    {
        match self {
            Storage::Local(storage) => storage.get_file(path),
            Storage::S3(storage) => storage.get_file(path),
        }
    }

    /// The removal of the content behind the locator `path`.
    pub fn delete_file(&self, path: &str) -> (request: DeleteRequest)
        ensures
            request@ == self@.delete_request(path@),
    {
        match self {
            Storage::Local(storage) => storage.delete_file(path),
            Storage::S3(storage) => storage.delete_file(path),
        }
    }

    /// The media type that the extension of `path` suggests;
    /// `application/octet-stream` where it has none.
    pub fn get_mime_type(&self, path: &str) -> (mime: String)
        ensures
            mime@ == mime_type_of(path@),
            file_extension_of(path@) is None ==> mime@ == octet_stream(),
    {
        match self {
            Storage::Local(storage) => storage.get_mime_type(path),
            Storage::S3(storage) => storage.get_mime_type(path),
        }
    }

    /// The tag that records carry for content written by this backend.
    pub fn storage_type(&self) -> (tag: String)
        ensures
            tag@ == self@.tag(),
    {
        match self {
            Storage::Local(_) => "local".to_owned(),
            Storage::S3(_) => "s3".to_owned(),
        }
    }
}

} // verus!
