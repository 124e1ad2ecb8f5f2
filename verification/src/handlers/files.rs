//! Retrieval, listing and deletion of stored files. A private record is as
//! good as absent to all three.

use vstd::prelude::*;
use vstd::string::*;
use crate::error::ApiError;
use crate::handlers::upload::{AppState, AppStateView};
use crate::models::file::{file_views, response_views, summaries};
use crate::models::{File, FileResponse, FileResponseView, FileView};
use crate::storage::{DeleteRequest, DeleteRequestView, FetchRequest, FetchRequestView};
use crate::trusted::mime_type_of;

verus! {

/// The view of an optional record.
pub open spec fn opt_file(record: Option<File>) -> Option<FileView> {
    match record {
        Some(record) => Some(record@),
        None => None,
    }
}

/// The content of a file, with the headers it is served under.
#[derive(Debug, PartialEq, Eq)]
pub struct FileContent {
    pub content_type: String,
    pub content_length: i64,
    pub cache_control: String,
    pub accept_ranges: String,
    pub etag: String,
    pub body: Vec<u8>,
}

/// Served content as a mathematical value.
pub struct FileContentView {
    pub content_type: Seq<char>,
    pub content_length: i64,
    pub cache_control: Seq<char>,
    pub accept_ranges: Seq<char>,
    pub etag: Seq<char>,
    pub body: Seq<u8>,
}

impl View for FileContent {
    type V = FileContentView;

    open spec fn view(&self) -> FileContentView {
        FileContentView {
            content_type: self.content_type@,
            content_length: self.content_length,
            cache_control: self.cache_control@,
            accept_ranges: self.accept_ranges@,
            etag: self.etag@,
            body: self.body@,
        }
    }
}

/// How the content `data` of `record` is served: under the media type that
/// the locator suggests, with the recorded size as its length, cacheable by
/// anyone for a year, open to range requests, and with the identifier of the
/// record, in quotes, as its entity tag. Records never change, so the tag
/// need not follow the content.
pub open spec fn file_content(record: FileView, data: Seq<u8>) -> FileContentView {
    FileContentView {
        content_type: mime_type_of(record.path),
        content_length: record.size,
        cache_control: "public, max-age=31536000"@,
        accept_ranges: "bytes"@,
        etag: "\""@ + record.id + "\""@,
        body: data,
    }
}

/// Where a retrieval stands.
#[derive(Debug, PartialEq, Eq)]
pub enum GetState {
    Idle,
    /// The metadata store is looking the record up.
    LookingUp,
    /// The backend is reading the content of `record`.
    Fetching { record: File },
    Done,
}

/// A retrieval state as a mathematical value.
pub enum GetStateView {
    Idle,
    LookingUp,
    Fetching { record: FileView },
    Done,
}

impl View for GetState {
    type V = GetStateView;

    open spec fn view(&self) -> GetStateView {
        match *self {
            GetState::Idle => GetStateView::Idle,
            GetState::LookingUp => GetStateView::LookingUp,
            GetState::Fetching { record } => GetStateView::Fetching { record: record@ },
            GetState::Done => GetStateView::Done,
        }
    }
}

/// What the caller reports to a retrieval.
#[derive(Debug, PartialEq, Eq)]
pub enum GetEvent {
    /// A request for the file with this identifier has arrived.
    Request { id: String },
    /// The metadata store has answered the lookup.
    Row { record: Option<File> },
    /// The metadata store could not do the lookup.
    LookupFailed,
    /// The backend has read the content.
    Content { data: Vec<u8> },
    /// The backend could not read the content.
    FetchFailed,
}

/// A retrieval event as a mathematical value.
pub enum GetEventView {
    Request { id: Seq<char> },
    Row { record: Option<FileView> },
    LookupFailed,
    Content { data: Seq<u8> },
    FetchFailed,
}

impl View for GetEvent {
    type V = GetEventView;

    open spec fn view(&self) -> GetEventView {
        match *self {
            GetEvent::Request { id } => GetEventView::Request { id: id@ },
            GetEvent::Row { record } => GetEventView::Row { record: opt_file(record) },
            GetEvent::LookupFailed => GetEventView::LookupFailed,
            GetEvent::Content { data } => GetEventView::Content { data: data@ },
            GetEvent::FetchFailed => GetEventView::FetchFailed,
        }
    }
}

/// What a retrieval asks of the caller.
#[derive(Debug, PartialEq, Eq)]
pub enum GetAction {
    /// Look the record up in the metadata store.
    Lookup { id: String },
    /// Carry out the read.
    Fetch { request: FetchRequest },
    /// Answer the request with the content.
    Respond { content: FileContent },
    /// Answer the request with a failure.
    Reject { error: ApiError },
    /// The event was not awaited: there is nothing to do.
    Nothing,
}

/// A retrieval action as a mathematical value.
pub enum GetActionView {
    Lookup { id: Seq<char> },
    Fetch { request: FetchRequestView },
    Respond { content: FileContentView },
    Reject { error: ApiError },
    Nothing,
}

impl View for GetAction {
    type V = GetActionView;

    open spec fn view(&self) -> GetActionView {
        match *self {
            GetAction::Lookup { id } => GetActionView::Lookup { id: id@ },
            GetAction::Fetch { request } => GetActionView::Fetch { request: request@ },
            GetAction::Respond { content } => GetActionView::Respond { content: content@ },
            GetAction::Reject { error } => GetActionView::Reject { error },
            GetAction::Nothing => GetActionView::Nothing,
        }
    }
}

/// One step of a retrieval. A record that is absent or private is not found;
/// nor is one whose content the backend cannot read, whatever the reason. An
/// event that the state does not await changes nothing and asks for nothing.
pub open spec fn get_step(app: AppStateView, state: GetStateView, event: GetEventView) -> (
    GetStateView,
    GetActionView,
) {
    match (state, event) {
        (GetStateView::Idle, GetEventView::Request { id }) => (
            GetStateView::LookingUp,
            GetActionView::Lookup { id },
        ),
        (GetStateView::LookingUp, GetEventView::Row { record: Some(record) }) => {
            if record.is_private {
                (GetStateView::Done, GetActionView::Reject { error: ApiError::NotFound })
            } else {
                (
                    GetStateView::Fetching { record },
                    GetActionView::Fetch { request: app.storage.fetch_request(record.path) },
                )
            }
        },
        (GetStateView::LookingUp, GetEventView::Row { record: None }) => (
            GetStateView::Done,
            GetActionView::Reject { error: ApiError::NotFound },
        ),
        (GetStateView::LookingUp, GetEventView::LookupFailed) => (
            GetStateView::Done,
            GetActionView::Reject { error: ApiError::Database },
        ),
        (GetStateView::Fetching { record }, GetEventView::Content { data }) => (
            GetStateView::Done,
            GetActionView::Respond { content: file_content(record, data) },
        ),
        (GetStateView::Fetching { .. }, GetEventView::FetchFailed) => (
            GetStateView::Done,
            GetActionView::Reject { error: ApiError::NotFound },
        ),
        _ => (state, GetActionView::Nothing),
    }
}

/// The content `data` of `record`, with the headers it is served under.
pub fn serve_content(app: &AppState, record: &File, data: Vec<u8>) -> (content: FileContent)
    ensures
        content@ == file_content(record@, data@),
{
    let mut etag = "\"".to_owned();
    etag.append(record.id.as_str());
    etag.append("\"");
    FileContent {
        content_type: app.storage.get_mime_type(record.path.as_str()),
        content_length: record.size,
        cache_control: "public, max-age=31536000".to_owned(),
        accept_ranges: "bytes".to_owned(),
        etag,
        body: data,
    }
}

/// One step of a retrieval.
pub fn get_file_by_id_handler(app: &AppState, state: GetState, event: GetEvent) -> (next: (
    GetState,
    GetAction,
))
    ensures
        (next.0@, next.1@) == get_step(app@, state@, event@),
{
    match (state, event) {
        (GetState::Idle, GetEvent::Request { id }) => (GetState::LookingUp, GetAction::Lookup { id }),
        (GetState::LookingUp, GetEvent::Row { record: Some(record) }) => {
            if record.is_private {
                (GetState::Done, GetAction::Reject { error: ApiError::NotFound })
            } else {
                let request = app.storage.get_file(record.path.as_str());
                (GetState::Fetching { record }, GetAction::Fetch { request })
            }
        },
        (GetState::LookingUp, GetEvent::Row { record: None }) => (
            GetState::Done,
            GetAction::Reject { error: ApiError::NotFound },
        ),
        (GetState::LookingUp, GetEvent::LookupFailed) => (
            GetState::Done,
            GetAction::Reject { error: ApiError::Database },
        ),
        (GetState::Fetching { record }, GetEvent::Content { data }) => (
            GetState::Done,
            GetAction::Respond { content: serve_content(app, &record, data) },
        ),
        (GetState::Fetching { .. }, GetEvent::FetchFailed) => (
            GetState::Done,
            GetAction::Reject { error: ApiError::NotFound },
        ),
        (state, _) => (state, GetAction::Nothing),
    }
}

/// The query of a listing.
#[derive(Clone, Copy, Debug, PartialEq, Eq)]
pub struct FilesQuery {
    /// How many records the client asks for, if it says.
    pub limit: Option<i64>,
}

/// The number of records that a listing asks the store for: what the client
/// asks for, ten if it does not say, never more than 500 and never less than
/// none.
pub open spec fn clamped_limit(limit: Option<i64>) -> i64 {
    let wanted = match limit {
        Some(limit) => limit,
        None => 10,
    };
    if wanted < 0 {
        0
    } else if wanted < 500 {
        wanted
    } else {
        500
    }
}

/// Where a listing stands.
#[derive(Clone, Copy, Debug, PartialEq, Eq, Structural)]
pub enum ListState {
    Idle,
    /// The metadata store is running the query.
    Querying,
    Done,
}

/// What the caller reports to a listing.
#[derive(Debug, PartialEq, Eq)]
pub enum ListEvent {
    /// A request for a listing has arrived.
    Request { query: FilesQuery },
    /// The metadata store has answered the query.
    Rows { records: Vec<File> },
    /// The metadata store could not run the query.
    QueryFailed,
}

/// A listing event as a mathematical value.
pub enum ListEventView {
    Request { limit: Option<i64> },
    Rows { records: Seq<FileView> },
    QueryFailed,
}

impl View for ListEvent {
    type V = ListEventView;

    open spec fn view(&self) -> ListEventView {
        match *self {
            ListEvent::Request { query } => ListEventView::Request { limit: query.limit },
            ListEvent::Rows { records } => ListEventView::Rows { records: file_views(records@) },
            ListEvent::QueryFailed => ListEventView::QueryFailed,
        }
    }
}

/// What a listing asks of the caller.
#[derive(Debug, PartialEq, Eq)]
pub enum ListAction {
    /// Ask the metadata store for its newest public records, `limit` at most.
    Query { limit: i64 },
    /// Answer the request with the entries.
    Respond { entries: Vec<FileResponse> },
    /// Answer the request with a failure.
    Reject { error: ApiError },
    /// The event was not awaited: there is nothing to do.
    Nothing,
}

/// A listing action as a mathematical value.
pub enum ListActionView {
    Query { limit: i64 },
    Respond { entries: Seq<FileResponseView> },
    Reject { error: ApiError },
    Nothing,
}

impl View for ListAction {
    type V = ListActionView;

    open spec fn view(&self) -> ListActionView {
        match *self {
            ListAction::Query { limit } => ListActionView::Query { limit },
            ListAction::Respond { entries } => ListActionView::Respond {
                entries: response_views(entries@),
            },
            ListAction::Reject { error } => ListActionView::Reject { error },
            ListAction::Nothing => ListActionView::Nothing,
        }
    }
}

/// One step of a listing. The rows that the store returns are shown in its
/// order, each reduced to its summary. An event that the state does not
/// await changes nothing and asks for nothing.
pub open spec fn list_step(state: ListState, event: ListEventView) -> (ListState, ListActionView) {
    match (state, event) {
        (ListState::Idle, ListEventView::Request { limit }) => (
            ListState::Querying,
            ListActionView::Query { limit: clamped_limit(limit) },
        ),
        (ListState::Querying, ListEventView::Rows { records }) => (
            ListState::Done,
            ListActionView::Respond { entries: summaries(records) },
        ),
        (ListState::Querying, ListEventView::QueryFailed) => (
            ListState::Done,
            ListActionView::Reject { error: ApiError::ListFailed },
        ),
        _ => (state, ListActionView::Nothing),
    }
}

/// The number of records that a listing asks the store for.
pub fn clamp_limit(limit: Option<i64>) -> (clamped: i64)
    ensures
        clamped == clamped_limit(limit),
{
    let wanted: i64 = match limit {
        Some(limit) => limit,
        None => 10,
    };
    if wanted < 0 {
        0
    } else if wanted < 500 {
        wanted
    } else {
        500
    }
}

/// The summaries of `records`, in order.
pub fn summarize(records: Vec<File>) -> (entries: Vec<FileResponse>)
    ensures
        response_views(entries@) == summaries(file_views(records@)),
{
    let mut entries: Vec<FileResponse> = Vec::new();
    let ghost all = records@;
    for record in it: records
        invariant
            it.seq() == all,
            response_views(entries@) == summaries(file_views(all.take(it.index() as int))),
    {
        let ghost before = entries@;
        let entry = FileResponse::from(record);
        entries.push(entry);
        proof {
            let k = it.index() as int;
            assert(all.take(k + 1) == all.take(k).push(all[k]));
            assert(file_views(all.take(k + 1)) == file_views(all.take(k)).push(all[k]@));
            assert(summaries(file_views(all.take(k + 1))) == summaries(
                file_views(all.take(k)),
            ).push(all[k]@.summary()));
            assert(response_views(before.push(entry)) == response_views(before).push(entry@));
        }
    }
    proof {
        assert(all.take(all.len() as int) == all);
    }
    entries
}

/// One step of a listing.
pub fn list_files(state: ListState, event: ListEvent) -> (next: (ListState, ListAction))
    ensures
        next.0 == list_step(state, event@).0,
        next.1@ == list_step(state, event@).1,
{
    match (state, event) {
        (ListState::Idle, ListEvent::Request { query }) => (
            ListState::Querying,
            ListAction::Query { limit: clamp_limit(query.limit) },
        ),
        (ListState::Querying, ListEvent::Rows { records }) => (
            ListState::Done,
            ListAction::Respond { entries: summarize(records) },
        ),
        (ListState::Querying, ListEvent::QueryFailed) => (
            ListState::Done,
            ListAction::Reject { error: ApiError::ListFailed },
        ),
        (state, _) => (state, ListAction::Nothing),
    }
}

/// Where a deletion stands.
#[derive(Debug, PartialEq, Eq)]
pub enum DeleteState {
    Idle,
    /// The metadata store is looking up the record with this identifier.
    LookingUp { id: String },
    /// The backend is removing the content of the record.
    RemovingContent { id: String },
    /// The metadata store is deleting the record.
    RemovingRecord,
    Done,
}

/// A deletion state as a mathematical value.
pub enum DeleteStateView {
    Idle,
    LookingUp { id: Seq<char> },
    RemovingContent { id: Seq<char> },
    RemovingRecord,
    Done,
}

impl View for DeleteState {
    type V = DeleteStateView;

    open spec fn view(&self) -> DeleteStateView {
        match *self {
            DeleteState::Idle => DeleteStateView::Idle,
            DeleteState::LookingUp { id } => DeleteStateView::LookingUp { id: id@ },
            DeleteState::RemovingContent { id } => DeleteStateView::RemovingContent { id: id@ },
            DeleteState::RemovingRecord => DeleteStateView::RemovingRecord,
            DeleteState::Done => DeleteStateView::Done,
        }
    }
}

/// What the caller reports to a deletion.
#[derive(Debug, PartialEq, Eq)]
pub enum DeleteEvent {
    /// A request to delete the file with this identifier has arrived.
    Request { id: String },
    /// The metadata store has answered the lookup.
    Row { record: Option<File> },
    /// The metadata store could not do the lookup.
    LookupFailed,
    /// The backend has removed the content.
    ContentRemoved,
    /// The backend could not remove the content.
    ContentNotRemoved,
    /// The metadata store has run the deletion; `removed` tells whether a
    /// row went.
    RecordRemoved { removed: bool },
    /// The metadata store could not run the deletion.
    RecordNotRemoved,
}

/// A deletion event as a mathematical value.
pub enum DeleteEventView {
    Request { id: Seq<char> },
    Row { record: Option<FileView> },
    LookupFailed,
    ContentRemoved,
    ContentNotRemoved,
    RecordRemoved { removed: bool },
    RecordNotRemoved,
}

impl View for DeleteEvent {
    type V = DeleteEventView;

    open spec fn view(&self) -> DeleteEventView {
        match *self {
            DeleteEvent::Request { id } => DeleteEventView::Request { id: id@ },
            DeleteEvent::Row { record } => DeleteEventView::Row { record: opt_file(record) },
            DeleteEvent::LookupFailed => DeleteEventView::LookupFailed,
            DeleteEvent::ContentRemoved => DeleteEventView::ContentRemoved,
            DeleteEvent::ContentNotRemoved => DeleteEventView::ContentNotRemoved,
            DeleteEvent::RecordRemoved { removed } => DeleteEventView::RecordRemoved { removed },
            DeleteEvent::RecordNotRemoved => DeleteEventView::RecordNotRemoved,
        }
    }
}

/// What a deletion asks of the caller.
#[derive(Debug, PartialEq, Eq)]
pub enum DeleteAction {
    /// Look the record up in the metadata store.
    Lookup { id: String },
    /// Carry out the removal of the content.
    RemoveContent { request: DeleteRequest },
    /// Delete the record from the metadata store, unless it is private.
    RemoveRecord { id: String },
    /// Answer the request with success, under this message.
    Respond { message: String },
    /// Answer the request with a failure.
    Reject { error: ApiError },
    /// The event was not awaited: there is nothing to do.
    Nothing,
}

/// A deletion action as a mathematical value.
pub enum DeleteActionView {
    Lookup { id: Seq<char> },
    RemoveContent { request: DeleteRequestView },
    RemoveRecord { id: Seq<char> },
    Respond { message: Seq<char> },
    Reject { error: ApiError },
    Nothing,
}

impl View for DeleteAction {
    type V = DeleteActionView;

    open spec fn view(&self) -> DeleteActionView {
        match *self {
            DeleteAction::Lookup { id } => DeleteActionView::Lookup { id: id@ },
            DeleteAction::RemoveContent { request } => DeleteActionView::RemoveContent {
                request: request@,
            },
            DeleteAction::RemoveRecord { id } => DeleteActionView::RemoveRecord { id: id@ },
            DeleteAction::Respond { message } => DeleteActionView::Respond { message: message@ },
            DeleteAction::Reject { error } => DeleteActionView::Reject { error },
            DeleteAction::Nothing => DeleteActionView::Nothing,
        }
    }
}

/// One step of a deletion. The content goes first and the record second; a
/// record that is gone by then makes the deletion report that nothing was
/// found, although the content has been removed. An event that the state
/// does not await changes nothing and asks for nothing.
pub open spec fn delete_step(app: AppStateView, state: DeleteStateView, event: DeleteEventView)
    -> (DeleteStateView, DeleteActionView) {
    match (state, event) {
        (DeleteStateView::Idle, DeleteEventView::Request { id }) => (
            DeleteStateView::LookingUp { id },
            DeleteActionView::Lookup { id },
        ),
        (DeleteStateView::LookingUp { id }, DeleteEventView::Row { record: Some(record) }) => {
            if record.is_private {
                (DeleteStateView::Done, DeleteActionView::Reject { error: ApiError::NotFound })
            } else {
                (
                    DeleteStateView::RemovingContent { id },
                    DeleteActionView::RemoveContent {
                        request: app.storage.delete_request(record.path),
                    },
                )
            }
        },
        (DeleteStateView::LookingUp { .. }, DeleteEventView::Row { record: None }) => (
            DeleteStateView::Done,
            DeleteActionView::Reject { error: ApiError::NotFound },
        ),
        (DeleteStateView::LookingUp { .. }, DeleteEventView::LookupFailed) => (
            DeleteStateView::Done,
            DeleteActionView::Reject { error: ApiError::Database },
        ),
        (DeleteStateView::RemovingContent { id }, DeleteEventView::ContentRemoved) => (
            DeleteStateView::RemovingRecord,
            DeleteActionView::RemoveRecord { id },
        ),
        (DeleteStateView::RemovingContent { .. }, DeleteEventView::ContentNotRemoved) => (
            DeleteStateView::Done,
            DeleteActionView::Reject { error: ApiError::DeleteFailed },
        ),
        (DeleteStateView::RemovingRecord, DeleteEventView::RecordRemoved { removed }) => {
            if removed {
                (
                    DeleteStateView::Done,
                    DeleteActionView::Respond { message: "File deleted successfully"@ },
                )
            } else {
                (DeleteStateView::Done, DeleteActionView::Reject { error: ApiError::NotFound })
            }
        },
        (DeleteStateView::RemovingRecord, DeleteEventView::RecordNotRemoved) => (
            DeleteStateView::Done,
            DeleteActionView::Reject { error: ApiError::Database },
        ),
        _ => (state, DeleteActionView::Nothing),
    }
}

/// One step of a deletion.
pub fn delete_file(app: &AppState, state: DeleteState, event: DeleteEvent) -> (next: (
    DeleteState,
    DeleteAction,
))
    ensures
        (next.0@, next.1@) == delete_step(app@, state@, event@),
{
    match (state, event) {
        (DeleteState::Idle, DeleteEvent::Request { id }) => (
            DeleteState::LookingUp { id: id.clone() },
            DeleteAction::Lookup { id },
        ),
        (DeleteState::LookingUp { id }, DeleteEvent::Row { record: Some(record) }) => {
            if record.is_private {
                (DeleteState::Done, DeleteAction::Reject { error: ApiError::NotFound })
            } else {
                let request = app.storage.delete_file(record.path.as_str());
                (DeleteState::RemovingContent { id }, DeleteAction::RemoveContent { request })
            }
        },
        (DeleteState::LookingUp { .. }, DeleteEvent::Row { record: None }) => (
            DeleteState::Done,
            DeleteAction::Reject { error: ApiError::NotFound },
        ),
        (DeleteState::LookingUp { .. }, DeleteEvent::LookupFailed) => (
            DeleteState::Done,
            DeleteAction::Reject { error: ApiError::Database },
        ),
        (DeleteState::RemovingContent { id }, DeleteEvent::ContentRemoved) => (
            DeleteState::RemovingRecord,
            DeleteAction::RemoveRecord { id },
        ),
        (DeleteState::RemovingContent { .. }, DeleteEvent::ContentNotRemoved) => (
            DeleteState::Done,
            DeleteAction::Reject { error: ApiError::DeleteFailed },
        ),
        (DeleteState::RemovingRecord, DeleteEvent::RecordRemoved { removed }) => {
            if removed {
                (
                    DeleteState::Done,
                    DeleteAction::Respond { message: "File deleted successfully".to_owned() },
                )
            } else {
                (DeleteState::Done, DeleteAction::Reject { error: ApiError::NotFound })
            }
        },
        (DeleteState::RemovingRecord, DeleteEvent::RecordNotRemoved) => (
            DeleteState::Done,
            DeleteAction::Reject { error: ApiError::Database },
        ),
        (state, _) => (state, DeleteAction::Nothing),
    }
}

} // verus!
