use std::collections::HashMap;

use file_server_rs::config::{Config, StorageType};
use file_server_rs::error::ApiError;
use file_server_rs::handlers::files::{
    DeleteAction, DeleteEvent, DeleteState, FileContent, GetAction, GetEvent, GetState, ListAction,
    ListEvent, ListState,
};
use file_server_rs::handlers::upload::{
    upload_file_with, Drawn, UploadAction, UploadEvent, UploadState,
};
use file_server_rs::handlers::{
    delete_file, get_file_by_id_handler, list_files, upload_file, AppState, FilesQuery,
};
use file_server_rs::models::{File, FileResponse, Timestamp, UploadResponse};
use file_server_rs::storage::{
    DeleteRequest, FetchRequest, LocalStorage, S3Storage, Storage, StoreRequest,
};

/// A table and a backend in memory, free of faults.
struct World {
    rows: Vec<File>,
    objects: HashMap<String, Vec<u8>>,
}

struct Part {
    name: Option<String>,
    file_name: Option<String>,
    data: Vec<u8>,
}

fn file_part(file_name: &str, data: &[u8]) -> Part {
    Part {
        name: Some("file".to_string()),
        file_name: Some(file_name.to_string()),
        data: data.to_vec(),
    }
}

fn app(storage: Storage, max_file_size: u64, allowed: &str) -> AppState {
    let storage_type = match storage {
        Storage::Local(_) => StorageType::Local,
        Storage::S3(_) => StorageType::S3,
    };
    AppState {
        storage,
        config: Config {
            database_url: "sqlite:./files.db".to_string(),
            host: "0.0.0.0".to_string(),
            port: 3000,
            max_file_size,
            allowed_file_types: Some(allowed.to_string()),
            storage_type,
            storage_path: "./files".to_string(),
            auth_token: None,
            disable_upload_page: false,
            s3_bucket: Some("bucket".to_string()),
            s3_region: None,
            aws_access_key_id: None,
            aws_secret_access_key: None,
            aws_endpoint_url: None,
        },
    }
}

fn local(max_file_size: u64, allowed: &str) -> AppState {
    app(Storage::Local(LocalStorage::new("./files".to_string())), max_file_size, allowed)
}

fn object_store() -> AppState {
    app(Storage::S3(S3Storage::new("bucket".to_string(), None, None)), 1000, "*")
}

impl World {
    fn new() -> World {
        World { rows: Vec::new(), objects: HashMap::new() }
    }

    fn upload(&mut self, app: &AppState, parts: Vec<Part>) -> Result<UploadResponse, ApiError> {
        self.upload_drawing(app, parts, None)
    }

    /// An upload that draws the given token and identifier, if any are given.
    fn upload_drawing(
        &mut self,
        app: &AppState,
        parts: Vec<Part>,
        drawn: Option<(&str, &str)>,
    ) -> Result<UploadResponse, ApiError> {
        let mut parts = parts.into_iter();
        let mut current = Vec::new();
        let mut state = UploadState::Idle;
        let mut event = UploadEvent::Request;
        loop {
            let (next, action) = match drawn {
                Some((token, id)) => {
                    let drawn = Drawn {
                        token: token.to_string(),
                        id: id.to_string(),
                        now: Timestamp { secs: 1, nanos: 0 },
                    };
                    upload_file_with(app, state, event, drawn)
                }
                None => upload_file(app, state, event),
            };
            state = next;
            event = match action {
                UploadAction::NextField => match parts.next() {
                    Some(part) => {
                        current = part.data;
                        UploadEvent::Field { name: part.name, file_name: part.file_name }
                    }
                    None => UploadEvent::EndOfFields,
                },
                UploadAction::ReadField => UploadEvent::Content { data: current.clone() },
                UploadAction::Store { request } => {
                    let (slot, data) = match request {
                        StoreRequest::WriteFile { path, data, .. } => (path, data),
                        StoreRequest::PutObject { key, data, .. } => (key, data),
                    };
                    if self.objects.contains_key(&slot) {
                        UploadEvent::StoreFailed
                    } else {
                        self.objects.insert(slot, data);
                        UploadEvent::Stored
                    }
                }
                UploadAction::Persist { record } => {
                    if self.rows.iter().any(|row| row.id == record.id) {
                        UploadEvent::SaveFailed
                    } else {
                        self.rows.push(record.clone());
                        UploadEvent::Saved { record }
                    }
                }
                UploadAction::Respond { response } => return Ok(response),
                UploadAction::Reject { error } => return Err(error),
                UploadAction::Nothing => panic!("the upload stalled"),
            };
        }
    }

    fn get(&self, app: &AppState, id: &str) -> Result<FileContent, ApiError> {
        let mut state = GetState::Idle;
        let mut event = GetEvent::Request { id: id.to_string() };
        loop {
            let (next, action) = get_file_by_id_handler(app, state, event);
            state = next;
            event = match action {
                GetAction::Lookup { id } => {
                    GetEvent::Row { record: self.rows.iter().find(|row| row.id == id).cloned() }
                }
                GetAction::Fetch { request } => {
                    let key = match request {
                        FetchRequest::ReadFile { path } => path,
                        FetchRequest::GetObject { key, .. } => key,
                    };
                    match self.objects.get(&key) {
                        Some(data) => GetEvent::Content { data: data.clone() },
                        None => GetEvent::FetchFailed,
                    }
                }
                GetAction::Respond { content } => return Ok(content),
                GetAction::Reject { error } => return Err(error),
                GetAction::Nothing => panic!("the retrieval stalled"),
            };
        }
    }

    fn delete(&mut self, app: &AppState, id: &str) -> Result<String, ApiError> {
        let mut state = DeleteState::Idle;
        let mut event = DeleteEvent::Request { id: id.to_string() };
        loop {
            let (next, action) = delete_file(app, state, event);
            state = next;
            event = match action {
                DeleteAction::Lookup { id } => {
                    DeleteEvent::Row { record: self.rows.iter().find(|row| row.id == id).cloned() }
                }
                DeleteAction::RemoveContent { request } => match request {
                    DeleteRequest::RemoveFile { path } => match self.objects.remove(&path) {
                        Some(_) => DeleteEvent::ContentRemoved,
                        None => DeleteEvent::ContentNotRemoved,
                    },
                    DeleteRequest::DeleteObject { key, .. } => {
                        self.objects.remove(&key);
                        DeleteEvent::ContentRemoved
                    }
                },
                DeleteAction::RemoveRecord { id } => {
                    let before = self.rows.len();
                    self.rows.retain(|row| row.id != id || row.is_private);
                    DeleteEvent::RecordRemoved { removed: self.rows.len() < before }
                }
                DeleteAction::Respond { message } => return Ok(message),
                DeleteAction::Reject { error } => return Err(error),
                DeleteAction::Nothing => panic!("the deletion stalled"),
            };
        }
    }

    fn list(&self, limit: Option<i64>) -> Result<Vec<FileResponse>, ApiError> {
        let mut state = ListState::Idle;
        let mut event = ListEvent::Request { query: FilesQuery { limit } };
        loop {
            let (next, action) = list_files(state, event);
            state = next;
            event = match action {
                ListAction::Query { limit } => {
                    let mut records: Vec<File> =
                        self.rows.iter().filter(|row| !row.is_private).cloned().collect();
                    records.sort_by(|a, b| {
                        (b.created_at.secs, b.created_at.nanos)
                            .cmp(&(a.created_at.secs, a.created_at.nanos))
                    });
                    if limit >= 0 {
                        records.truncate(limit as usize);
                    }
                    ListEvent::Rows { records }
                }
                ListAction::Respond { entries } => return Ok(entries),
                ListAction::Reject { error } => return Err(error),
                ListAction::Nothing => panic!("the listing stalled"),
            };
        }
    }

    fn insert(&mut self, id: &str, secs: i64, is_private: bool) {
        let path = format!("./files/{}.bin", id);
        self.objects.insert(path.clone(), vec![1]);
        self.rows.push(File {
            id: id.to_string(),
            path,
            name: format!("{}.bin", id),
            size: 1,
            storage_type: "local".to_string(),
            is_private,
            created_at: Timestamp { secs, nanos: 0 },
            updated_at: Timestamp { secs, nanos: 0 },
        });
    }
}

#[test]
fn uploaded_photo_is_served_deleted_and_gone() {
    let app = local(52428800, "*");
    let mut world = World::new();
    let bytes = [0u8, 1, 2, 3, 4, 5, 6, 7, 8, 9];
    let response = world.upload(&app, vec![file_part("photo.png", &bytes)]).unwrap();
    assert_eq!(response.data.name, "photo.png");
    assert_eq!(response.data.size, 10);
    assert_eq!(response.data.storage_type, "local");
    assert_eq!(response.storage_type, "local");
    assert_eq!(response.file_path, format!("/files/uploads/{}", response.data.id));
    assert!(!response.data.is_private);

    let id = response.data.id.clone();
    let content = world.get(&app, &id).unwrap();
    assert_eq!(content.body, bytes.to_vec());
    assert_eq!(content.content_type, "image/png");
    assert_eq!(content.content_length, 10);
    assert_eq!(content.etag, format!("\"{}\"", id));

    assert_eq!(world.delete(&app, &id), Ok("File deleted successfully".to_string()));
    assert_eq!(world.get(&app, &id), Err(ApiError::NotFound));
    assert_eq!(ApiError::NotFound.status(), 404);
}

#[test]
fn text_is_not_allowed_where_only_png_is() {
    let app = local(52428800, "image/png");
    let mut world = World::new();
    let outcome = world.upload(&app, vec![file_part("notes.txt", b"hello")]);
    assert_eq!(outcome, Err(ApiError::FileTypeNotAllowed));
    assert_eq!(ApiError::FileTypeNotAllowed.status(), 400);
    assert_eq!(ApiError::FileTypeNotAllowed.message(), "File type not allowed");
    assert!(world.rows.is_empty());
    assert!(world.objects.is_empty());
}

#[test]
fn upload_is_served_back_byte_for_byte() {
    for app in [local(1000, "*"), object_store()] {
        let mut world = World::new();
        let bytes: Vec<u8> = (0..=255).collect();
        let parts = vec![
            Part { name: Some("comment".to_string()), file_name: None, data: b"hi".to_vec() },
            file_part("data.bin", &bytes),
            file_part("later.bin", b"ignored"),
        ];
        let response = world.upload(&app, parts).unwrap();
        assert_eq!(response.data.name, "data.bin");
        assert_eq!(world.get(&app, &response.data.id).unwrap().body, bytes);
        assert_eq!(world.rows.len(), 1);
        assert_eq!(world.objects.len(), 1);
    }
}

#[test]
fn oversized_upload_leaves_nothing_behind() {
    let app = local(4, "*");
    let mut world = World::new();
    assert_eq!(world.upload(&app, vec![file_part("a.bin", &[0; 5])]), Err(ApiError::FileTooLarge));
    assert_eq!(ApiError::FileTooLarge.status(), 413);
    assert!(world.rows.is_empty());
    assert!(world.objects.is_empty());
    assert!(world.upload(&app, vec![file_part("a.bin", &[0; 4])]).is_ok());
}

#[test]
fn uploads_of_one_name_do_not_collide() {
    for app in [local(1000, "*"), object_store()] {
        let mut world = World::new();
        let first = world.upload(&app, vec![file_part("photo.png", b"first")]).unwrap();
        let second = world.upload(&app, vec![file_part("photo.png", b"second")]).unwrap();
        assert_ne!(first.data.id, second.data.id);
        assert_ne!(first.data.path, second.data.path);
        assert_eq!(world.rows.len(), 2);
        assert_eq!(world.objects.len(), 2);
        assert_eq!(world.get(&app, &first.data.id).unwrap().body, b"first".to_vec());
        assert_eq!(world.get(&app, &second.data.id).unwrap().body, b"second".to_vec());
    }
}

#[test]
fn listing_is_bounded_and_newest_first() {
    let mut world = World::new();
    for i in 0..600 {
        world.insert(&format!("id-{}", i), i, false);
    }
    let default = world.list(None).unwrap();
    assert_eq!(default.len(), 10);
    assert_eq!(default[0].id, "id-599");
    assert_eq!(default[9].id, "id-590");
    assert!(default.windows(2).all(|pair| pair[0].created_at.secs >= pair[1].created_at.secs));
    assert_eq!(world.list(Some(1000)).unwrap().len(), 500);
    assert_eq!(world.list(Some(3)).unwrap().len(), 3);
    assert_eq!(world.list(Some(0)).unwrap().len(), 0);
    assert_eq!(world.list(Some(-1)).unwrap().len(), 0);
    assert_eq!(world.list(Some(500)).unwrap().len(), 500);
}

#[test]
fn second_deletion_finds_nothing() {
    for app in [local(1000, "*"), object_store()] {
        let mut world = World::new();
        let response = world.upload(&app, vec![file_part("a.txt", b"abc")]).unwrap();
        let id = response.data.id;
        assert_eq!(world.delete(&app, &id), Ok("File deleted successfully".to_string()));
        assert!(world.rows.is_empty());
        assert!(world.objects.is_empty());
        assert_eq!(world.delete(&app, &id), Err(ApiError::NotFound));
    }
}

#[test]
fn private_record_is_out_of_reach() {
    let app = local(1000, "*");
    let mut world = World::new();
    world.insert("public", 1, false);
    world.insert("hidden", 2, true);
    let listed = world.list(None).unwrap();
    assert_eq!(listed.len(), 1);
    assert_eq!(listed[0].id, "public");
    assert_eq!(world.get(&app, "hidden"), Err(ApiError::NotFound));
    assert_eq!(world.delete(&app, "hidden"), Err(ApiError::NotFound));
    assert_eq!(world.rows.len(), 2);
    assert_eq!(world.objects.len(), 2);
    assert!(world.get(&app, "public").is_ok());
}

#[test]
fn missing_content_is_not_found() {
    let app = local(1000, "*");
    let mut world = World::new();
    world.insert("a", 1, false);
    world.objects.clear();
    assert_eq!(world.get(&app, "a"), Err(ApiError::NotFound));
    assert_eq!(world.delete(&app, "a"), Err(ApiError::DeleteFailed));
    assert_eq!(world.rows.len(), 1);
}

#[test]
fn body_without_file_is_a_bad_request() {
    let app = local(1000, "*");
    let mut world = World::new();
    assert_eq!(world.upload(&app, Vec::new()), Err(ApiError::NoFile));
    let parts = vec![Part { name: Some("file".to_string()), file_name: None, data: Vec::new() }];
    assert_eq!(world.upload(&app, parts), Err(ApiError::NoFilename));
    assert_eq!(ApiError::NoFile.status(), 400);
}

#[test]
fn write_onto_a_taken_place_fails_and_changes_nothing() {
    for app in [local(1000, "*"), object_store()] {
        let mut world = World::new();
        let first = world
            .upload_drawing(&app, vec![file_part("photo.png", b"first")], Some(("T", "id-1")))
            .unwrap();
        let second =
            world.upload_drawing(&app, vec![file_part("photo.png", b"second")], Some(("T", "id-2")));
        assert_eq!(second, Err(ApiError::UploadFailed));
        assert_eq!(world.rows.len(), 1);
        assert_eq!(world.objects.len(), 1);
        assert_eq!(world.get(&app, &first.data.id).unwrap().body, b"first".to_vec());
        assert_eq!(world.get(&app, "id-2"), Err(ApiError::NotFound));
    }
}

#[test]
fn taken_identifier_leaves_content_without_a_record() {
    let app = local(1000, "*");
    let mut world = World::new();
    world.upload_drawing(&app, vec![file_part("a.txt", b"first")], Some(("T1", "id-1"))).unwrap();
    let second = world.upload_drawing(&app, vec![file_part("a.txt", b"second")], Some(("T2", "id-1")));
    assert_eq!(second, Err(ApiError::MetadataNotSaved));
    assert_eq!(world.rows.len(), 1);
    assert_eq!(world.objects.len(), 2);
    assert_eq!(world.get(&app, "id-1").unwrap().body, b"first".to_vec());
}

#[test]
fn object_locator_is_the_key() {
    let app = object_store();
    let mut world = World::new();
    let response = world.upload(&app, vec![file_part("photo.png", b"abc")]).unwrap();
    assert!(response.data.path.starts_with("uploads/photo-"));
    assert!(response.data.path.ends_with(".png"));
    assert!(world.objects.contains_key(&response.data.path));
}
