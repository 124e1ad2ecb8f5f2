//! The upload pipeline: take the file field out of a multipart body, check
//! its size and type, have the backend write it, then have its record
//! inserted. The write comes first: no record is made for content that was
//! not stored. Content whose record then fails to insert stays behind
//! untracked; nothing removes it.

use vstd::prelude::*;
use vstd::string::*;
use crate::config::{Config, ConfigView};
use crate::error::ApiError;
use crate::models::{File, FileView, Timestamp, UploadResponse, UploadResponseView};
use crate::storage::{Storage, StorageView, StoreRequest, StoreRequestView};
use crate::text::{list_contains, opt_chars, str_eq};
use crate::trusted::{current_time, fresh_token, guess_mime_type, is_token, mime_type_of};

verus! {

/// What the pipelines share: the backend and the settings.
#[derive(Debug, PartialEq, Eq)]
pub struct AppState {
    pub storage: Storage,
    pub config: Config,
}

/// The shared state as a mathematical value.
pub struct AppStateView {
    pub storage: StorageView,
    pub config: ConfigView,
}

impl View for AppState {
    type V = AppStateView;

    open spec fn view(&self) -> AppStateView {
        AppStateView { storage: self.storage@, config: self.config@ }
    }
}

impl Clone for AppState {
    fn clone(&self) -> (copy: Self)
        ensures
            copy == *self,
    {
        AppState { storage: self.storage.clone(), config: self.config.clone() }
    }
}

/// Where an upload stands.
#[derive(Debug, PartialEq, Eq)]
pub enum UploadState {
    /// Nothing has happened yet.
    Idle,
    /// The next field of the body is awaited.
    ReceivingMultipart,
    /// The content of the file field is awaited.
    ReceivingFile { filename: String },
    /// The backend is writing; `path` is the locator it will answer to.
    WritingToBackend { filename: String, size: u64, path: String },
    /// The metadata store is inserting the record.
    PersistingMetadata,
    /// The response has been decided.
    Done,
}

/// An upload state as a mathematical value.
pub enum UploadStateView {
    Idle,
    ReceivingMultipart,
    ReceivingFile { filename: Seq<char> },
    WritingToBackend { filename: Seq<char>, size: u64, path: Seq<char> },
    PersistingMetadata,
    Done,
}

impl View for UploadState {
    type V = UploadStateView;

    open spec fn view(&self) -> UploadStateView {
        match *self {
            UploadState::Idle => UploadStateView::Idle,
            UploadState::ReceivingMultipart => UploadStateView::ReceivingMultipart,
            UploadState::ReceivingFile { filename } => UploadStateView::ReceivingFile {
                filename: filename@,
            },
            UploadState::WritingToBackend {
                filename,
                size,
                path,
            } => UploadStateView::WritingToBackend { filename: filename@, size, path: path@ },
            UploadState::PersistingMetadata => UploadStateView::PersistingMetadata,
            UploadState::Done => UploadStateView::Done,
        }
    }
}

/// What the caller reports to an upload.
#[derive(Debug, PartialEq, Eq)]
pub enum UploadEvent {
    /// A request has arrived.
    Request,
    /// The body yielded a field, with these names in its header.
    Field { name: Option<String>, file_name: Option<String> },
    /// The body has no further field.
    EndOfFields,
    /// The body could not be read.
    MultipartFailed,
    /// The content of the current field, in full.
    Content { data: Vec<u8> },
    /// The content of the current field could not be read.
    ReadFailed,
    /// The backend has written the content.
    Stored,
    /// The backend could not write the content.
    StoreFailed,
    /// The metadata store has inserted the record; this is the row it holds.
    Saved { record: File },
    /// The metadata store could not insert the record.
    SaveFailed,
}

/// An upload event as a mathematical value.
pub enum UploadEventView {
    Request,
    Field { name: Option<Seq<char>>, file_name: Option<Seq<char>> },
    EndOfFields,
    MultipartFailed,
    Content { data: Seq<u8> },
    ReadFailed,
    Stored,
    StoreFailed,
    Saved { record: FileView },
    SaveFailed,
}

impl View for UploadEvent {
    type V = UploadEventView;

    open spec fn view(&self) -> UploadEventView {
        match *self {
            UploadEvent::Request => UploadEventView::Request,
            UploadEvent::Field { name, file_name } => UploadEventView::Field {
                name: opt_chars(name),
                file_name: opt_chars(file_name),
            },
            UploadEvent::EndOfFields => UploadEventView::EndOfFields,
            UploadEvent::MultipartFailed => UploadEventView::MultipartFailed,
            UploadEvent::Content { data } => UploadEventView::Content { data: data@ },
            UploadEvent::ReadFailed => UploadEventView::ReadFailed,
            UploadEvent::Stored => UploadEventView::Stored,
            UploadEvent::StoreFailed => UploadEventView::StoreFailed,
            UploadEvent::Saved { record } => UploadEventView::Saved { record: record@ },
            UploadEvent::SaveFailed => UploadEventView::SaveFailed,
        }
    }
}

/// What an upload asks of the caller.
#[derive(Debug, PartialEq, Eq)]
pub enum UploadAction {
    /// Read the next field of the body.
    NextField,
    /// Read the content of the current field into memory.
    ReadField,
    /// Carry out the write.
    Store { request: StoreRequest },
    /// Insert the record into the metadata store.
    Persist { record: File },
    /// Answer the request with success.
    Respond { response: UploadResponse },
    /// Answer the request with a failure.
    Reject { error: ApiError },
    /// The event was not awaited: there is nothing to do.
    Nothing,
}

/// An upload action as a mathematical value.
pub enum UploadActionView {
    NextField,
    ReadField,
    Store { request: StoreRequestView },
    Persist { record: FileView },
    Respond { response: UploadResponseView },
    Reject { error: ApiError },
    Nothing,
}

impl View for UploadAction {
    type V = UploadActionView;

    open spec fn view(&self) -> UploadActionView {
        match *self {
            UploadAction::NextField => UploadActionView::NextField,
            UploadAction::ReadField => UploadActionView::ReadField,
            UploadAction::Store { request } => UploadActionView::Store { request: request@ },
            UploadAction::Persist { record } => UploadActionView::Persist { record: record@ },
            UploadAction::Respond { response } => UploadActionView::Respond {
                response: response@,
            },
            UploadAction::Reject { error } => UploadActionView::Reject { error },
            UploadAction::Nothing => UploadActionView::Nothing,
        }
    }
}

/// The values that an upload draws from outside: the token of the stored
/// name, the identifier of the record, and the time of its creation.
pub struct Fresh {
    pub token: Seq<char>,
    pub id: Seq<char>,
    pub now: Timestamp,
}

impl Fresh {
    /// Both the token and the identifier have the shape of a UUID.
    pub open spec fn well_formed(self) -> bool {
        is_token(self.token) && is_token(self.id)
    }
}

/// Why an upload of this name and size is turned away, if it is: the size is
/// checked first, against the configured maximum; then, unless the wildcard is
/// among the allowed types, the media type that the name suggests.
pub open spec fn upload_objection(config: ConfigView, filename: Seq<char>, size: u64) -> Option<
    ApiError,
> {
    let allowed = config.allowed_file_types();
    if size > config.max_file_size {
        Some(ApiError::FileTooLarge)
    } else if !allowed.contains("*"@) && !allowed.contains(mime_type_of(filename)) {
        Some(ApiError::FileTypeNotAllowed)
    } else {
        None
    }
}

/// The response to an upload whose record the store holds as `record`.
pub open spec fn upload_response(record: FileView) -> UploadResponseView {
    UploadResponseView {
        file_path: "/files/uploads/"@ + record.id,
        storage_type: record.storage_type,
        data: record,
    }
}

/// One step of an upload: the state after `event` arrives in `state`, and
/// the action to take. An event that the state does not await changes
/// nothing and asks for nothing.
pub open spec fn upload_step(
    app: AppStateView,
    state: UploadStateView,
    event: UploadEventView,
    fresh: Fresh,
) -> (UploadStateView, UploadActionView) {
    match (state, event) {
        (UploadStateView::Idle, UploadEventView::Request) => (
            UploadStateView::ReceivingMultipart,
            UploadActionView::NextField,
        ),
        (UploadStateView::ReceivingMultipart, UploadEventView::Field { name, file_name }) => {
            if name == Some("file"@) {
                match file_name {
                    Some(filename) => (
                        UploadStateView::ReceivingFile { filename },
                        UploadActionView::ReadField,
                    ),
                    None => (
                        UploadStateView::Done,
                        UploadActionView::Reject { error: ApiError::NoFilename },
                    ),
                }
            } else {
                (UploadStateView::ReceivingMultipart, UploadActionView::NextField)
            }
        },
        (UploadStateView::ReceivingMultipart, UploadEventView::EndOfFields) => (
            UploadStateView::Done,
            UploadActionView::Reject { error: ApiError::NoFile },
        ),
        (UploadStateView::ReceivingMultipart, UploadEventView::MultipartFailed) => (
            UploadStateView::Done,
            UploadActionView::Reject { error: ApiError::InvalidMultipart },
        ),
        (UploadStateView::ReceivingFile { filename }, UploadEventView::Content { data }) => {
            let size = data.len() as u64;
            match upload_objection(app.config, filename, size) {
                Some(error) => (UploadStateView::Done, UploadActionView::Reject { error }),
                None => {
                    let plan = app.storage.store_plan(filename, data, fresh.token);
                    (
                        UploadStateView::WritingToBackend { filename, size, path: plan.locator },
                        UploadActionView::Store { request: plan.request },
                    )
                },
            }
        },
        (UploadStateView::ReceivingFile { .. }, UploadEventView::ReadFailed) => (
            UploadStateView::Done,
            UploadActionView::Reject { error: ApiError::UnreadableFile },
        ),
        (
            UploadStateView::WritingToBackend { filename, size, path },
            UploadEventView::Stored,
        ) => (
            UploadStateView::PersistingMetadata,
            UploadActionView::Persist {
                record: FileView::created(
                    fresh.id,
                    path,
                    filename,
                    size as i64,
                    app.storage.tag(),
                    fresh.now,
                ),
            },
        ),
        (UploadStateView::WritingToBackend { .. }, UploadEventView::StoreFailed) => (
            UploadStateView::Done,
            UploadActionView::Reject { error: ApiError::UploadFailed },
        ),
        (UploadStateView::PersistingMetadata, UploadEventView::Saved { record }) => (
            UploadStateView::Done,
            UploadActionView::Respond { response: upload_response(record) },
        ),
        (UploadStateView::PersistingMetadata, UploadEventView::SaveFailed) => (
            UploadStateView::Done,
            UploadActionView::Reject { error: ApiError::MetadataNotSaved },
        ),
        _ => (state, UploadActionView::Nothing),
    }
}

/// Checks the size and the type of an upload against the settings.
pub fn check_upload(config: &Config, filename: &str, size: u64) -> (result: Result<(), ApiError>)
    ensures
        match result {
            Ok(_) => upload_objection(config@, filename@, size) is None,
            Err(error) => upload_objection(config@, filename@, size) == Some(error),
        },
{
    if size > config.max_file_size {
        return Err(ApiError::FileTooLarge);
    }
    let allowed = config.allowed_file_types_vec();
    if !list_contains(&allowed, "*") {
        let mime = guess_mime_type(filename);
        if !list_contains(&allowed, mime.as_str()) {
            return Err(ApiError::FileTypeNotAllowed);
        }
    }
    Ok(())
}

/// The response to an upload whose record the store holds as `record`.
pub fn respond_to_upload(record: File) -> (response: UploadResponse)
    ensures
        response@ == upload_response(record@),
{
    let mut file_path = "/files/uploads/".to_owned();
    file_path.append(record.id.as_str());
    UploadResponse { file_path, storage_type: record.storage_type.clone(), data: record }
}

/// The values that an upload draws from outside, as drawn.
#[derive(Debug, PartialEq, Eq)]
pub struct Drawn {
    /// The token of the stored name.
    pub token: String,
    /// The identifier of the record.
    pub id: String,
    /// The time of the record's creation.
    pub now: Timestamp,
}

impl View for Drawn {
    type V = Fresh;

    open spec fn view(&self) -> Fresh {
        Fresh { token: self.token@, id: self.id@, now: self.now }
    }
}

/// One step of an upload, with the values to use where the step draws any.
pub fn upload_file_with(app: &AppState, state: UploadState, event: UploadEvent, drawn: Drawn)
    -> (next: (UploadState, UploadAction))
    ensures
        (next.0@, next.1@) == upload_step(app@, state@, event@, drawn@),
{
    match (state, event) {
        (UploadState::Idle, UploadEvent::Request) => (
            UploadState::ReceivingMultipart,
            UploadAction::NextField,
        ),
        (UploadState::ReceivingMultipart, UploadEvent::Field { name, file_name }) => {
            let is_file = match &name {
                Some(name) => str_eq(name.as_str(), "file"),
                None => false,
            };
            if is_file {
                match file_name {
                    Some(filename) => (
                        UploadState::ReceivingFile { filename },
                        UploadAction::ReadField,
                    ),
                    None => (
                        UploadState::Done,
                        UploadAction::Reject { error: ApiError::NoFilename },
                    ),
                }
            } else {
                (UploadState::ReceivingMultipart, UploadAction::NextField)
            }
        },
        (UploadState::ReceivingMultipart, UploadEvent::EndOfFields) => (
            UploadState::Done,
            UploadAction::Reject { error: ApiError::NoFile },
        ),
        (UploadState::ReceivingMultipart, UploadEvent::MultipartFailed) => (
            UploadState::Done,
            UploadAction::Reject { error: ApiError::InvalidMultipart },
        ),
        (UploadState::ReceivingFile { filename }, UploadEvent::Content { data }) => {
            let size = data.len() as u64;
            match check_upload(&app.config, filename.as_str(), size) {
                Err(error) => (UploadState::Done, UploadAction::Reject { error }),
                Ok(_) => {
                    let plan = app.storage.store_file_as(
                        filename.as_str(),
                        data,
                        drawn.token.as_str(),
                    );
                    (
                        UploadState::WritingToBackend { filename, size, path: plan.locator },
                        UploadAction::Store { request: plan.request },
                    )
                },
            }
        },
        (UploadState::ReceivingFile { .. }, UploadEvent::ReadFailed) => (
            UploadState::Done,
            UploadAction::Reject { error: ApiError::UnreadableFile },
        ),
        (UploadState::WritingToBackend { filename, size, path }, UploadEvent::Stored) => {
            let record = File::with_identity(
                drawn.id,
                path,
                filename,
                #[verifier::truncate]
                (size as i64),
                app.storage.storage_type(),
                drawn.now,
            );
            (UploadState::PersistingMetadata, UploadAction::Persist { record })
        },
        (UploadState::WritingToBackend { .. }, UploadEvent::StoreFailed) => (
            UploadState::Done,
            UploadAction::Reject { error: ApiError::UploadFailed },
        ),
        (UploadState::PersistingMetadata, UploadEvent::Saved { record }) => (
            UploadState::Done,
            UploadAction::Respond { response: respond_to_upload(record) },
        ),
        (UploadState::PersistingMetadata, UploadEvent::SaveFailed) => (
            UploadState::Done,
            UploadAction::Reject { error: ApiError::MetadataNotSaved },
        ),
        (state, _) => (state, UploadAction::Nothing),
    }
}

/// A text with the shape of a token, to show that there is one.
spec fn sample_token() -> Seq<char> {
    Seq::new(
        36,
        |i: int|
            if i == 8 || i == 13 || i == 18 || i == 23 {
                '-'
            } else {
                '0'
            },
    )
}

/// The sample has the shape of a token.
proof fn lemma_sample_token()
    ensures
        is_token(sample_token()),
{
}

/// One step of an upload. The token of a write is drawn afresh when content
/// arrives, and the identifier and the creation time of a record when its
/// content has been stored; no other step draws anything.
pub fn upload_file(app: &AppState, state: UploadState, event: UploadEvent) -> (next: (
    UploadState,
    UploadAction,
))
    ensures
        exists|fresh: Fresh| #[trigger]
            fresh.well_formed() && (next.0@, next.1@) == upload_step(app@, state@, event@, fresh),
{
    let ghost sample = sample_token();
    proof {
        lemma_sample_token();
    }
    let epoch = Timestamp { secs: 0, nanos: 0 };
    let ghost witness: Fresh;
    let drawn = match (&state, &event) {
        (UploadState::ReceivingFile { .. }, UploadEvent::Content { .. }) => {
            let token = fresh_token();
            proof {
                witness = Fresh { token: token@, id: sample, now: epoch };
            }
            Drawn { token, id: String::new(), now: epoch }
        },
        (UploadState::WritingToBackend { .. }, UploadEvent::Stored) => {
            let now = current_time();
            let id = fresh_token();
            proof {
                witness = Fresh { token: sample, id: id@, now };
            }
            Drawn { token: String::new(), id, now }
        },
        _ => {
            proof {
                witness = Fresh { token: sample, id: sample, now: epoch };
            }
            Drawn { token: String::new(), id: String::new(), now: epoch }
        },
    };
    proof {
        assert(witness.well_formed());
        assert(upload_step(app@, state@, event@, drawn@) == upload_step(
            app@,
            state@,
            event@,
            witness,
        ));
    }
    upload_file_with(app, state, event, drawn)
}

} // verus!
