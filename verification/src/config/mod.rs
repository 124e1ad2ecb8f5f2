//! The settings of the service, resolved once at startup and read-only after.

use vstd::prelude::*;
use vstd::string::*;
use crate::text::{comma_list, lines_of, opt_chars, split_commas_trimmed};

verus! {

/// Which backend stores the content.
#[derive(Clone, Copy, Debug, PartialEq, Eq, Structural)]
pub enum StorageType {
    Local,
    S3,
}

impl StorageType {
    /// The tag by which records name the backend.
    pub open spec fn tag(self) -> Seq<char> {
        match self {
            StorageType::Local => "local"@,
            StorageType::S3 => "s3"@,
        }
    }

    /// The tag as text.
    pub fn to_string(&self) -> (tag: String)
        ensures
            tag@ == self.tag(),
    {
        match self {
            StorageType::Local => "local".to_owned(),
            StorageType::S3 => "s3".to_owned(),
        }
    }
}

/// Why a configuration cannot be used.
#[derive(Clone, Copy, Debug, PartialEq, Eq, Structural)]
pub enum ConfigError {
    /// The object store is selected and validation finds no bucket.
    MissingBucket,
    /// The object store is selected and validation finds no region.
    MissingRegion,
    /// The object store is selected and the backend is built without a bucket.
    BucketNotConfigured,
}

impl ConfigError {
    /// The message of the error.
    pub open spec fn text(self) -> Seq<char> {
        match self {
            ConfigError::MissingBucket => "S3 bucket must be specified when using S3 storage"@,
            ConfigError::MissingRegion => "S3 region must be specified when using S3 storage"@,
            ConfigError::BucketNotConfigured => "S3 bucket not configured"@,
        }
    }

    /// The message of the error, as text.
    pub fn to_string(&self) -> (message: String)
        ensures
            message@ == self.text(),
    {
        match self {
            ConfigError::MissingBucket => {
                "S3 bucket must be specified when using S3 storage".to_owned()
            },
            ConfigError::MissingRegion => {
                "S3 region must be specified when using S3 storage".to_owned()
            },
            ConfigError::BucketNotConfigured => "S3 bucket not configured".to_owned(),
        }
    }
}

/// The settings of the service.
#[derive(Debug, PartialEq, Eq)]
pub struct Config {
    pub database_url: String,
    pub host: String,
    pub port: u16,
    /// The largest upload accepted, in bytes.
    pub max_file_size: u64,
    /// The media types accepted, separated by commas; `*` accepts all.
    pub allowed_file_types: Option<String>,
    pub storage_type: StorageType,
    /// The root directory of the local backend.
    pub storage_path: String,
    /// The bearer token that uploads must present; none disables the check.
    pub auth_token: Option<String>,
    pub disable_upload_page: bool,
    pub s3_bucket: Option<String>,
    pub s3_region: Option<String>,
    pub aws_access_key_id: Option<String>,
    pub aws_secret_access_key: Option<String>,
    pub aws_endpoint_url: Option<String>,
}

/// The settings as a mathematical value.
pub struct ConfigView {
    pub database_url: Seq<char>,
    pub host: Seq<char>,
    pub port: u16,
    pub max_file_size: u64,
    pub allowed_file_types: Option<Seq<char>>,
    pub storage_type: StorageType,
    pub storage_path: Seq<char>,
    pub auth_token: Option<Seq<char>>,
    pub disable_upload_page: bool,
    pub s3_bucket: Option<Seq<char>>,
    pub s3_region: Option<Seq<char>>,
    pub aws_access_key_id: Option<Seq<char>>,
    pub aws_secret_access_key: Option<Seq<char>>,
    pub aws_endpoint_url: Option<Seq<char>>,
}

impl View for Config {
    type V = ConfigView;

    open spec fn view(&self) -> ConfigView {
        ConfigView {
            database_url: self.database_url@,
            host: self.host@,
            port: self.port,
            max_file_size: self.max_file_size,
            allowed_file_types: opt_chars(self.allowed_file_types),
            storage_type: self.storage_type,
            storage_path: self.storage_path@,
            auth_token: opt_chars(self.auth_token),
            disable_upload_page: self.disable_upload_page,
            s3_bucket: opt_chars(self.s3_bucket),
            s3_region: opt_chars(self.s3_region),
            aws_access_key_id: opt_chars(self.aws_access_key_id),
            aws_secret_access_key: opt_chars(self.aws_secret_access_key),
            aws_endpoint_url: opt_chars(self.aws_endpoint_url),
        }
    }
}

impl Clone for Config {
    fn clone(&self) -> (copy: Self)
        ensures
            copy == *self,
    {
        Config {
            database_url: self.database_url.clone(),
            host: self.host.clone(),
            port: self.port,
            max_file_size: self.max_file_size,
            allowed_file_types: self.allowed_file_types.clone(),
            storage_type: self.storage_type,
            storage_path: self.storage_path.clone(),
            auth_token: self.auth_token.clone(),
            disable_upload_page: self.disable_upload_page,
            s3_bucket: self.s3_bucket.clone(),
            s3_region: self.s3_region.clone(),
            aws_access_key_id: self.aws_access_key_id.clone(),
            aws_secret_access_key: self.aws_secret_access_key.clone(),
            aws_endpoint_url: self.aws_endpoint_url.clone(),
        }
    }
}

impl ConfigView {
    /// What validation finds. The object store needs a bucket and a region,
    /// and the bucket is looked at first. The local backend needs its root
    /// directory, which validation names so that it can be made to exist.
    pub open spec fn validated(self) -> Result<Option<Seq<char>>, ConfigError> {
        match self.storage_type {
            StorageType::S3 => {
                if self.s3_bucket is None {
                    Err(ConfigError::MissingBucket)
                } else if self.s3_region is None {
                    Err(ConfigError::MissingRegion)
                } else {
                    Ok(None)
                }
            },
            StorageType::Local => Ok(Some(self.storage_path)),
        }
    }

    /// The media types that uploads may have: the entries of the setting,
    /// trimmed, or the wildcard alone where nothing is set.
    pub open spec fn allowed_file_types(self) -> Seq<Seq<char>> {
        match self.allowed_file_types {
            Some(types) => comma_list(types),
            None => seq!["*"@],
        }
    }
}

impl Config {
    /// Checks the settings against the backend they select. On success, names
    /// the directory that must exist before the service starts, if any.
    pub fn validate(&self) -> (result: Result<Option<String>, ConfigError>)
        ensures
            match result {
                Ok(directory) => self@.validated() == Ok::<Option<Seq<char>>, ConfigError>(
                    opt_chars(directory),
                ),
                Err(error) => self@.validated() == Err::<Option<Seq<char>>, ConfigError>(error),
            },
    {
        match self.storage_type {
            StorageType::S3 => {
                if self.s3_bucket.is_none() {
                    return Err(ConfigError::MissingBucket);
                }
                if self.s3_region.is_none() {
                    return Err(ConfigError::MissingRegion);
                }
                Ok(None)
            },
            StorageType::Local => Ok(Some(self.storage_path.clone())),
        }
    }

    /// The media types that uploads may have.
    pub fn allowed_file_types_vec(&self) -> (types: Vec<String>)
        ensures
            lines_of(types@) == self@.allowed_file_types(),
    {
        match &self.allowed_file_types {
            Some(types) => split_commas_trimmed(types.as_str()),
            None => {
                let mut types: Vec<String> = Vec::new();
                let any = "*".to_owned();
                proof {
                    assert(lines_of(types@.push(any)) == seq![any@]);
                }
                types.push(any);
                types
            },
        }
    }
}

} // verus!
