//! The failures that the service reports to its clients.

use vstd::prelude::*;
use vstd::string::*;

verus! {

/// A failure reported to the client, as a status and a message.
#[derive(Clone, Copy, Debug, PartialEq, Eq, Structural)]
pub enum ApiError {
    /// The multipart body could not be read.
    InvalidMultipart,
    /// The file field carries no file name.
    NoFilename,
    /// The content of the file field could not be read.
    UnreadableFile,
    /// The request holds no file field.
    NoFile,
    /// The content is larger than the configured maximum.
    FileTooLarge,
    /// The media type of the file is not among the allowed ones.
    FileTypeNotAllowed,
    /// The backend could not write the content.
    UploadFailed,
    /// The metadata store could not insert the record.
    MetadataNotSaved,
    /// The metadata store could not look up or delete a record.
    Database,
    /// There is no such record, or it is private, or its content is missing.
    NotFound,
    /// The metadata store could not list the records.
    ListFailed,
    /// The backend could not remove the content.
    DeleteFailed,
    /// The bearer token is missing or wrong.
    Unauthorized,
}

impl ApiError {
    /// The HTTP status of the failure.
    pub open spec fn status_code(self) -> u16 {
        match self {
            ApiError::InvalidMultipart => 400,
            ApiError::NoFilename => 400,
            ApiError::UnreadableFile => 400,
            ApiError::NoFile => 400,
            ApiError::FileTooLarge => 413,
            ApiError::FileTypeNotAllowed => 400,
            ApiError::UploadFailed => 500,
            ApiError::MetadataNotSaved => 500,
            ApiError::Database => 500,
            ApiError::NotFound => 404,
            ApiError::ListFailed => 500,
            ApiError::DeleteFailed => 500,
            ApiError::Unauthorized => 401,
        }
    }

    /// The message of the failure, sent as the `error` member of the body.
    pub open spec fn text(self) -> Seq<char> {
        match self {
            ApiError::InvalidMultipart => "Invalid multipart data"@,
            ApiError::NoFilename => "No filename provided"@,
            ApiError::UnreadableFile => "Failed to read file data"@,
            ApiError::NoFile => "No file provided"@,
            ApiError::FileTooLarge => "File too large"@,
            ApiError::FileTypeNotAllowed => "File type not allowed"@,
            ApiError::UploadFailed => "Failed to upload file"@,
            ApiError::MetadataNotSaved => "Failed to save file metadata"@,
            ApiError::Database => "Database error"@,
            ApiError::NotFound => "File not found"@,
            ApiError::ListFailed => "Failed to fetch files"@,
            ApiError::DeleteFailed => "Failed to delete file"@,
            ApiError::Unauthorized => "Unauthorized"@,
        }
    }

    /// The HTTP status of the failure.
    pub fn status(&self) -> (code: u16)
        ensures
            code == self.status_code(),
    {
        match self {
            ApiError::InvalidMultipart => 400,
            ApiError::NoFilename => 400,
            ApiError::UnreadableFile => 400,
            ApiError::NoFile => 400,
            ApiError::FileTooLarge => 413,
            ApiError::FileTypeNotAllowed => 400,
            ApiError::UploadFailed => 500,
            ApiError::MetadataNotSaved => 500,
            ApiError::Database => 500,
            ApiError::NotFound => 404,
            ApiError::ListFailed => 500,
            ApiError::DeleteFailed => 500,
            ApiError::Unauthorized => 401,
        }
    }

    /// The message of the failure.
    pub fn message(&self) -> (message: String)
        ensures
            message@ == self.text(),
    {
        match self {
            ApiError::InvalidMultipart => "Invalid multipart data".to_owned(),
            ApiError::NoFilename => "No filename provided".to_owned(),
            ApiError::UnreadableFile => "Failed to read file data".to_owned(),
            ApiError::NoFile => "No file provided".to_owned(),
            ApiError::FileTooLarge => "File too large".to_owned(),
            ApiError::FileTypeNotAllowed => "File type not allowed".to_owned(),
            ApiError::UploadFailed => "Failed to upload file".to_owned(),
            ApiError::MetadataNotSaved => "Failed to save file metadata".to_owned(),
            ApiError::Database => "Database error".to_owned(),
            ApiError::NotFound => "File not found".to_owned(),
            ApiError::ListFailed => "Failed to fetch files".to_owned(),
            ApiError::DeleteFailed => "Failed to delete file".to_owned(),
            ApiError::Unauthorized => "Unauthorized".to_owned(),
        }
    }
}

} // verus!
