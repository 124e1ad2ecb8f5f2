//! A model of what surrounds the pipelines: the table of records, the
//! content that the backend holds, and the body of a request. The model is
//! free of faults: every read, write and query in it does what it is asked,
//! and fails only where what it is asked cannot be done.
//! Running a pipeline against the model says what a request comes to.

use vstd::prelude::*;
use crate::database::Table;
use crate::error::ApiError;
use crate::handlers::files::{
    delete_step, get_step, list_step, DeleteActionView, DeleteEventView, DeleteStateView,
    FileContentView, GetActionView, GetEventView, GetStateView, ListActionView, ListEventView,
    ListState,
};
use crate::handlers::upload::{
    upload_step, AppStateView, Fresh, UploadActionView, UploadEventView, UploadStateView,
};
use crate::models::{FileResponseView, FileView, UploadResponseView};
use crate::storage::{DeleteRequestView, FetchRequestView, StoreRequestView};

verus! {

/// A place where a backend keeps content.
pub enum Slot {
    File { path: Seq<char> },
    Object { bucket: Seq<char>, key: Seq<char> },
}

impl StoreRequestView {
    /// The place that the write fills.
    pub open spec fn slot(self) -> Slot {
        match self {
            StoreRequestView::WriteFile { path, .. } => Slot::File { path },
            StoreRequestView::PutObject { bucket, key, .. } => Slot::Object { bucket, key },
        }
    }

    /// The content that the write puts there.
    pub open spec fn content(self) -> Seq<u8> {
        match self {
            StoreRequestView::WriteFile { data, .. } => data,
            StoreRequestView::PutObject { data, .. } => data,
        }
    }
}

impl FetchRequestView {
    /// The place that the read looks at.
    pub open spec fn slot(self) -> Slot {
        match self {
            FetchRequestView::ReadFile { path } => Slot::File { path },
            FetchRequestView::GetObject { bucket, key } => Slot::Object { bucket, key },
        }
    }
}

impl DeleteRequestView {
    /// The place that the removal empties.
    pub open spec fn slot(self) -> Slot {
        match self {
            DeleteRequestView::RemoveFile { path } => Slot::File { path },
            DeleteRequestView::DeleteObject { bucket, key } => Slot::Object { bucket, key },
        }
    }

    /// Whether the removal fails where there is nothing to remove. A file
    /// system refuses to remove a file that is not there; an object store
    /// takes the removal of a missing object for done.
    pub open spec fn needs_content(self) -> bool {
        self is RemoveFile
    }
}

/// The table of records and the content in the backend.
pub struct World {
    pub table: Table,
    pub objects: Map<Slot, Seq<u8>>,
}

impl World {
    /// The world after a write, and whether the write succeeded. A write
    /// fills an empty slot; it fails on a slot that holds content, and leaves
    /// that content as it is.
    pub open spec fn store(self, request: StoreRequestView) -> (World, bool) {
        if self.objects.dom().contains(request.slot()) {
            (self, false)
        } else {
            (
                World { objects: self.objects.insert(request.slot(), request.content()), ..self },
                true,
            )
        }
    }

    /// What a read finds.
    pub open spec fn fetch(self, request: FetchRequestView) -> Option<Seq<u8>> {
        if self.objects.dom().contains(request.slot()) {
            Some(self.objects[request.slot()])
        } else {
            None
        }
    }

    /// The world after a removal, and whether the removal succeeded.
    pub open spec fn remove(self, request: DeleteRequestView) -> (World, bool) {
        if self.objects.dom().contains(request.slot()) || !request.needs_content() {
            (World { objects: self.objects.remove(request.slot()), ..self }, true)
        } else {
            (self, false)
        }
    }
}

/// One field of a multipart body.
pub struct Part {
    pub name: Option<Seq<char>>,
    pub file_name: Option<Seq<char>>,
    pub data: Seq<u8>,
}

/// What surrounds an upload in progress: the world, the fields of the body
/// that have not been looked at, and the content of the field last yielded.
pub struct UploadScene {
    pub world: World,
    pub parts: Seq<Part>,
    pub current: Seq<u8>,
}

/// What a request comes to: the answer, or a failure. A machine that stops
/// asking without having answered comes to nothing.
pub enum Outcome<T> {
    Responded(T),
    Rejected(ApiError),
    Stalled,
}

/// The scene after the caller has carried out `action`, and the event that
/// it reports. Actions that end the upload are not carried out.
pub open spec fn upload_reaction(scene: UploadScene, action: UploadActionView) -> (
    UploadScene,
    UploadEventView,
) {
    match action {
        UploadActionView::NextField => {
            if scene.parts.len() == 0 {
                (scene, UploadEventView::EndOfFields)
            } else {
                let part = scene.parts.first();
                (
                    UploadScene { parts: scene.parts.drop_first(), current: part.data, ..scene },
                    UploadEventView::Field { name: part.name, file_name: part.file_name },
                )
            }
        },
        UploadActionView::ReadField => (scene, UploadEventView::Content { data: scene.current }),
        UploadActionView::Store { request } => {
            let (world, written) = scene.world.store(request);
            if written {
                (UploadScene { world, ..scene }, UploadEventView::Stored)
            } else {
                (scene, UploadEventView::StoreFailed)
            }
        },
        UploadActionView::Persist { record } => {
            let (table, row) = scene.world.table.create_file(record);
            match row {
                Some(row) => (
                    UploadScene { world: World { table, ..scene.world }, ..scene },
                    UploadEventView::Saved { record: row },
                ),
                None => (scene, UploadEventView::SaveFailed),
            }
        },
        _ => (scene, UploadEventView::Request),
    }
}

/// An upload from `state` on, with `event` arriving, for at most `fuel`
/// actions: the world it leaves, and what it comes to.
pub open spec fn upload_run(
    app: AppStateView,
    scene: UploadScene,
    state: UploadStateView,
    event: UploadEventView,
    fresh: Fresh,
    fuel: nat,
) -> (World, Outcome<UploadResponseView>)
    decreases fuel,
{
    let (next, action) = upload_step(app, state, event, fresh);
    match action {
        UploadActionView::Respond { response } => (scene.world, Outcome::Responded(response)),
        UploadActionView::Reject { error } => (scene.world, Outcome::Rejected(error)),
        UploadActionView::Nothing => (scene.world, Outcome::Stalled),
        _ => {
            if fuel == 0 {
                (scene.world, Outcome::Stalled)
            } else {
                let (scene, event) = upload_reaction(scene, action);
                upload_run(app, scene, next, event, fresh, (fuel - 1) as nat)
            }
        },
    }
}

/// An upload of the body `parts` into `world`, with `fresh` as the values
/// drawn on the way: the world afterwards, and the answer.
pub open spec fn serve_upload(app: AppStateView, world: World, parts: Seq<Part>, fresh: Fresh) -> (
    World,
    Outcome<UploadResponseView>,
) {
    upload_run(
        app,
        UploadScene { world, parts, current: Seq::empty() },
        UploadStateView::Idle,
        UploadEventView::Request,
        fresh,
        parts.len() + 4,
    )
}

/// The event that the caller reports after it has carried out `action` of a
/// retrieval. Actions that end the retrieval are not carried out.
pub open spec fn get_reaction(world: World, action: GetActionView) -> GetEventView {
    match action {
        GetActionView::Lookup { id } => GetEventView::Row { record: world.table.get_file_by_id(id) },
        GetActionView::Fetch { request } => match world.fetch(request) {
            Some(data) => GetEventView::Content { data },
            None => GetEventView::FetchFailed,
        },
        _ => GetEventView::LookupFailed,
    }
}

/// A retrieval from `state` on, with `event` arriving, for at most `fuel`
/// actions.
pub open spec fn get_run(
    app: AppStateView,
    world: World,
    state: GetStateView,
    event: GetEventView,
    fuel: nat,
) -> Outcome<FileContentView>
    decreases fuel,
{
    let (next, action) = get_step(app, state, event);
    match action {
        GetActionView::Respond { content } => Outcome::Responded(content),
        GetActionView::Reject { error } => Outcome::Rejected(error),
        GetActionView::Nothing => Outcome::Stalled,
        _ => {
            if fuel == 0 {
                Outcome::Stalled
            } else {
                get_run(app, world, next, get_reaction(world, action), (fuel - 1) as nat)
            }
        },
    }
}

/// The answer to a request for the file with the identifier `id`.
pub open spec fn serve_get(app: AppStateView, world: World, id: Seq<char>) -> Outcome<
    FileContentView,
> {
    get_run(app, world, GetStateView::Idle, GetEventView::Request { id }, 2)
}

/// The world after the caller has carried out `action` of a deletion, and the
/// event that it reports. Actions that end the deletion are not carried out.
pub open spec fn delete_reaction(world: World, action: DeleteActionView) -> (
    World,
    DeleteEventView,
) {
    match action {
        DeleteActionView::Lookup { id } => (
            world,
            DeleteEventView::Row { record: world.table.get_file_by_id(id) },
        ),
        DeleteActionView::RemoveContent { request } => {
            let (after, removed) = world.remove(request);
            if removed {
                (after, DeleteEventView::ContentRemoved)
            } else {
                (after, DeleteEventView::ContentNotRemoved)
            }
        },
        DeleteActionView::RemoveRecord { id } => {
            let (table, removed) = world.table.delete_file_by_id(id);
            (World { table, ..world }, DeleteEventView::RecordRemoved { removed })
        },
        _ => (world, DeleteEventView::LookupFailed),
    }
}

/// A deletion from `state` on, with `event` arriving, for at most `fuel`
/// actions: the world it leaves, and what it comes to.
pub open spec fn delete_run(
    app: AppStateView,
    world: World,
    state: DeleteStateView,
    event: DeleteEventView,
    fuel: nat,
) -> (World, Outcome<Seq<char>>)
    decreases fuel,
{
    let (next, action) = delete_step(app, state, event);
    match action {
        DeleteActionView::Respond { message } => (world, Outcome::Responded(message)),
        DeleteActionView::Reject { error } => (world, Outcome::Rejected(error)),
        DeleteActionView::Nothing => (world, Outcome::Stalled),
        _ => {
            if fuel == 0 {
                (world, Outcome::Stalled)
            } else {
                let (world, event) = delete_reaction(world, action);
                delete_run(app, world, next, event, (fuel - 1) as nat)
            }
        },
    }
}

/// A request to delete the file with the identifier `id`: the world
/// afterwards, and the answer.
pub open spec fn serve_delete(app: AppStateView, world: World, id: Seq<char>) -> (
    World,
    Outcome<Seq<char>>,
) {
    delete_run(app, world, DeleteStateView::Idle, DeleteEventView::Request { id }, 3)
}

/// The answer to a request for a listing, where the store answers the query
/// with `listed`. A query has more than one answer where records share a
/// creation time, so the answer of the store is given, not computed.
pub open spec fn serve_list(limit: Option<i64>, listed: Seq<FileView>) -> Outcome<
    Seq<FileResponseView>,
> {
    let (querying, _) = list_step(ListState::Idle, ListEventView::Request { limit });
    match list_step(querying, ListEventView::Rows { records: listed }).1 {
        ListActionView::Respond { entries } => Outcome::Responded(entries),
        ListActionView::Reject { error } => Outcome::Rejected(error),
        _ => Outcome::Stalled,
    }
}

/// The limit that a listing hands to the store.
pub open spec fn list_query(limit: Option<i64>) -> Option<i64> {
    match list_step(ListState::Idle, ListEventView::Request { limit }).1 {
        ListActionView::Query { limit } => Some(limit),
        _ => None,
    }
}

} // verus!
