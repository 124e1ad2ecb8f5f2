//! Core of an HTTP file-upload service: the storage abstraction, the naming of
//! stored objects, and the upload, retrieval, listing and deletion pipelines,
//! written as verified decision procedures that an asynchronous front end drives.

pub mod config;
pub mod database;
pub mod error;
pub mod guarantees;
pub mod handlers;
pub mod middleware;
pub mod models;
pub mod storage;
pub mod text;
pub mod trusted;
pub mod world;
