use file_server_rs::config::{Config, StorageType};
use file_server_rs::error::ApiError;
use file_server_rs::handlers::files::{
    clamp_limit, serve_content, summarize, DeleteAction, DeleteEvent, DeleteState, FileContent,
    GetAction, GetEvent, GetState, ListAction, ListEvent, ListState,
};
use file_server_rs::handlers::{
    delete_file, get_file_by_id_handler, list_files, AppState, FilesQuery,
};
use file_server_rs::models::{File, FileResponse, Timestamp};
use file_server_rs::storage::{DeleteRequest, FetchRequest, LocalStorage, S3Storage, Storage};

fn config() -> Config {
    Config {
        database_url: "sqlite:./files.db".to_string(),
        host: "0.0.0.0".to_string(),
        port: 3000,
        max_file_size: 100,
        allowed_file_types: None,
        storage_type: StorageType::Local,
        storage_path: "./files".to_string(),
        auth_token: None,
        disable_upload_page: false,
        s3_bucket: None,
        s3_region: None,
        aws_access_key_id: None,
        aws_secret_access_key: None,
        aws_endpoint_url: None,
    }
}

fn local() -> AppState {
    AppState { storage: Storage::Local(LocalStorage::new("./files".to_string())), config: config() }
}

fn object_store() -> AppState {
    AppState {
        storage: Storage::S3(S3Storage::new("bucket".to_string(), None, None)),
        config: config(),
    }
}

fn record(id: &str, secs: i64, is_private: bool) -> File {
    File {
        id: id.to_string(),
        path: format!("./files/photo-{}.png", id),
        name: "photo.png".to_string(),
        size: 10,
        storage_type: "local".to_string(),
        is_private,
        created_at: Timestamp { secs, nanos: 0 },
        updated_at: Timestamp { secs, nanos: 0 },
    }
}

fn get_rejected(error: ApiError) -> (GetState, GetAction) {
    (GetState::Done, GetAction::Reject { error })
}

fn delete_rejected(error: ApiError) -> (DeleteState, DeleteAction) {
    (DeleteState::Done, DeleteAction::Reject { error })
}

#[test]
fn retrieval_begins_with_a_lookup() {
    assert_eq!(
        get_file_by_id_handler(&local(), GetState::Idle, GetEvent::Request { id: "a".to_string() }),
        (GetState::LookingUp, GetAction::Lookup { id: "a".to_string() })
    );
}

#[test]
fn absent_record_is_not_found() {
    let next = get_file_by_id_handler(&local(), GetState::LookingUp, GetEvent::Row { record: None });
    assert_eq!(next, get_rejected(ApiError::NotFound));
    assert_eq!(ApiError::NotFound.status(), 404);
}

#[test]
fn private_record_is_not_found() {
    let next = get_file_by_id_handler(
        &local(),
        GetState::LookingUp,
        GetEvent::Row { record: Some(record("a", 1, true)) },
    );
    assert_eq!(next, get_rejected(ApiError::NotFound));
}

#[test]
fn failed_lookup_is_a_database_error() {
    let next = get_file_by_id_handler(&local(), GetState::LookingUp, GetEvent::LookupFailed);
    assert_eq!(next, get_rejected(ApiError::Database));
    assert_eq!(ApiError::Database.status(), 500);
}

#[test]
fn public_record_is_fetched_from_its_path() {
    let next = get_file_by_id_handler(
        &local(),
        GetState::LookingUp,
        GetEvent::Row { record: Some(record("a", 1, false)) },
    );
    assert_eq!(
        next,
        (
            GetState::Fetching { record: record("a", 1, false) },
            GetAction::Fetch {
                request: FetchRequest::ReadFile { path: "./files/photo-a.png".to_string() }
            }
        )
    );
}

#[test]
fn object_is_fetched_by_its_key() {
    let mut stored = record("a", 1, false);
    stored.path = "uploads/photo-a.png".to_string();
    let (_, action) = get_file_by_id_handler(
        &object_store(),
        GetState::LookingUp,
        GetEvent::Row { record: Some(stored) },
    );
    assert_eq!(
        action,
        GetAction::Fetch {
            request: FetchRequest::GetObject {
                bucket: "bucket".to_string(),
                key: "uploads/photo-a.png".to_string(),
            }
        }
    );
}

#[test]
fn fetched_content_is_served_with_its_headers() {
    let next = get_file_by_id_handler(
        &local(),
        GetState::Fetching { record: record("a", 1, false) },
        GetEvent::Content { data: vec![1, 2, 3] },
    );
    let content = FileContent {
        content_type: "image/png".to_string(),
        content_length: 10,
        cache_control: "public, max-age=31536000".to_string(),
        accept_ranges: "bytes".to_string(),
        etag: "\"a\"".to_string(),
        body: vec![1, 2, 3],
    };
    assert_eq!(next, (GetState::Done, GetAction::Respond { content }));
}

#[test]
fn content_type_follows_the_locator() {
    let mut stored = record("a", 1, false);
    stored.name = "photo.png".to_string();
    stored.path = "./files/blob".to_string();
    let content = serve_content(&local(), &stored, vec![]);
    assert_eq!(content.content_type, "application/octet-stream");
    assert_eq!(content.etag, "\"a\"");
}

#[test]
fn failed_fetch_is_not_found() {
    let next = get_file_by_id_handler(
        &local(),
        GetState::Fetching { record: record("a", 1, false) },
        GetEvent::FetchFailed,
    );
    assert_eq!(next, get_rejected(ApiError::NotFound));
}

#[test]
fn retrieval_ignores_what_it_does_not_await() {
    assert_eq!(
        get_file_by_id_handler(&local(), GetState::Idle, GetEvent::FetchFailed),
        (GetState::Idle, GetAction::Nothing)
    );
    assert_eq!(
        get_file_by_id_handler(&local(), GetState::Done, GetEvent::Request { id: "a".to_string() }),
        (GetState::Done, GetAction::Nothing)
    );
    assert_eq!(
        get_file_by_id_handler(&local(), GetState::LookingUp, GetEvent::Content { data: vec![] }),
        (GetState::LookingUp, GetAction::Nothing)
    );
}

#[test]
fn limit_defaults_to_ten_and_stops_at_500() {
    assert_eq!(clamp_limit(None), 10);
    assert_eq!(clamp_limit(Some(1)), 1);
    assert_eq!(clamp_limit(Some(499)), 499);
    assert_eq!(clamp_limit(Some(500)), 500);
    assert_eq!(clamp_limit(Some(501)), 500);
    assert_eq!(clamp_limit(Some(1000)), 500);
    assert_eq!(clamp_limit(Some(i64::MAX)), 500);
    assert_eq!(clamp_limit(Some(0)), 0);
    assert_eq!(clamp_limit(Some(-1)), 0);
    assert_eq!(clamp_limit(Some(i64::MIN)), 0);
}

#[test]
fn listing_asks_for_the_clamped_limit() {
    assert_eq!(
        list_files(ListState::Idle, ListEvent::Request { query: FilesQuery { limit: None } }),
        (ListState::Querying, ListAction::Query { limit: 10 })
    );
    assert_eq!(
        list_files(ListState::Idle, ListEvent::Request { query: FilesQuery { limit: Some(1000) } }),
        (ListState::Querying, ListAction::Query { limit: 500 })
    );
    assert_eq!(
        list_files(ListState::Idle, ListEvent::Request { query: FilesQuery { limit: Some(-1) } }),
        (ListState::Querying, ListAction::Query { limit: 0 })
    );
}

#[test]
fn listing_shows_summaries_in_the_order_of_the_store() {
    let records = vec![record("c", 3, false), record("b", 2, false), record("a", 1, false)];
    let (state, action) = list_files(ListState::Querying, ListEvent::Rows { records });
    assert_eq!(state, ListState::Done);
    let entries = match action {
        ListAction::Respond { entries } => entries,
        other => panic!("unexpected action {:?}", other),
    };
    let ids: Vec<&str> = entries.iter().map(|e| e.id.as_str()).collect();
    assert_eq!(ids, vec!["c", "b", "a"]);
    assert_eq!(
        entries[0],
        FileResponse {
            id: "c".to_string(),
            name: "photo.png".to_string(),
            size: 10,
            storage_type: "local".to_string(),
            created_at: Timestamp { secs: 3, nanos: 0 },
        }
    );
}

#[test]
fn empty_listing_is_empty() {
    assert_eq!(summarize(Vec::new()), Vec::<FileResponse>::new());
    assert_eq!(
        list_files(ListState::Querying, ListEvent::Rows { records: Vec::new() }),
        (ListState::Done, ListAction::Respond { entries: Vec::new() })
    );
}

#[test]
fn failed_query_is_reported() {
    assert_eq!(
        list_files(ListState::Querying, ListEvent::QueryFailed),
        (ListState::Done, ListAction::Reject { error: ApiError::ListFailed })
    );
}

#[test]
fn listing_ignores_what_it_does_not_await() {
    assert_eq!(
        list_files(ListState::Idle, ListEvent::QueryFailed),
        (ListState::Idle, ListAction::Nothing)
    );
    assert_eq!(
        list_files(ListState::Done, ListEvent::Rows { records: Vec::new() }),
        (ListState::Done, ListAction::Nothing)
    );
}

#[test]
fn deletion_begins_with_a_lookup() {
    assert_eq!(
        delete_file(&local(), DeleteState::Idle, DeleteEvent::Request { id: "a".to_string() }),
        (DeleteState::LookingUp { id: "a".to_string() }, DeleteAction::Lookup { id: "a".to_string() })
    );
}

#[test]
fn deletion_of_absent_or_private_record_is_not_found() {
    let looking = || DeleteState::LookingUp { id: "a".to_string() };
    assert_eq!(
        delete_file(&local(), looking(), DeleteEvent::Row { record: None }),
        delete_rejected(ApiError::NotFound)
    );
    assert_eq!(
        delete_file(&local(), looking(), DeleteEvent::Row { record: Some(record("a", 1, true)) }),
        delete_rejected(ApiError::NotFound)
    );
    assert_eq!(
        delete_file(&local(), looking(), DeleteEvent::LookupFailed),
        delete_rejected(ApiError::Database)
    );
}

#[test]
fn content_is_removed_before_the_record() {
    let next = delete_file(
        &local(),
        DeleteState::LookingUp { id: "a".to_string() },
        DeleteEvent::Row { record: Some(record("a", 1, false)) },
    );
    assert_eq!(
        next,
        (
            DeleteState::RemovingContent { id: "a".to_string() },
            DeleteAction::RemoveContent {
                request: DeleteRequest::RemoveFile { path: "./files/photo-a.png".to_string() }
            }
        )
    );
    assert_eq!(
        delete_file(
            &local(),
            DeleteState::RemovingContent { id: "a".to_string() },
            DeleteEvent::ContentRemoved
        ),
        (DeleteState::RemovingRecord, DeleteAction::RemoveRecord { id: "a".to_string() })
    );
}

#[test]
fn failed_removal_of_content_keeps_the_record() {
    assert_eq!(
        delete_file(
            &local(),
            DeleteState::RemovingContent { id: "a".to_string() },
            DeleteEvent::ContentNotRemoved
        ),
        delete_rejected(ApiError::DeleteFailed)
    );
    assert_eq!(ApiError::DeleteFailed.status(), 500);
}

#[test]
fn removed_record_is_confirmed() {
    assert_eq!(
        delete_file(&local(), DeleteState::RemovingRecord, DeleteEvent::RecordRemoved { removed: true }),
        (
            DeleteState::Done,
            DeleteAction::Respond { message: "File deleted successfully".to_string() }
        )
    );
}

#[test]
fn record_that_vanished_is_not_found() {
    assert_eq!(
        delete_file(&local(), DeleteState::RemovingRecord, DeleteEvent::RecordRemoved { removed: false }),
        delete_rejected(ApiError::NotFound)
    );
    assert_eq!(
        delete_file(&local(), DeleteState::RemovingRecord, DeleteEvent::RecordNotRemoved),
        delete_rejected(ApiError::Database)
    );
}

#[test]
fn deletion_ignores_what_it_does_not_await() {
    assert_eq!(
        delete_file(&local(), DeleteState::Idle, DeleteEvent::ContentRemoved),
        (DeleteState::Idle, DeleteAction::Nothing)
    );
    assert_eq!(
        delete_file(&local(), DeleteState::Done, DeleteEvent::Request { id: "a".to_string() }),
        (DeleteState::Done, DeleteAction::Nothing)
    );
    assert_eq!(
        delete_file(&local(), DeleteState::RemovingRecord, DeleteEvent::ContentRemoved),
        (DeleteState::RemovingRecord, DeleteAction::Nothing)
    );
}
