//! The data that the service persists and returns.

pub mod file;

pub use file::{
    File, FileResponse, FileResponseView, FileView, Timestamp, UploadResponse, UploadResponseView,
};
