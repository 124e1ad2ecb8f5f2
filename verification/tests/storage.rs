use file_server_rs::config::{Config, ConfigError, StorageType};
use file_server_rs::storage::local::join_under;
use file_server_rs::storage::naming::{compose_unique_name, unique_name_with};
use file_server_rs::storage::{
    DeleteRequest, FetchRequest, LocalStorage, S3Storage, Storage, StoreRequest,
};

const TOKEN: &str = "018f4e2a-7b3c-7d10-8a55-0123456789ab";

fn config(storage_type: StorageType) -> Config {
    Config {
        database_url: "sqlite:./files.db".to_string(),
        host: "0.0.0.0".to_string(),
        port: 3000,
        max_file_size: 100,
        allowed_file_types: Some("*".to_string()),
        storage_type,
        storage_path: "./files".to_string(),
        auth_token: None,
        disable_upload_page: false,
        s3_bucket: Some("bucket".to_string()),
        s3_region: Some("eu-west-1".to_string()),
        aws_access_key_id: None,
        aws_secret_access_key: None,
        aws_endpoint_url: Some("http://localhost:9000".to_string()),
    }
}

fn is_token(text: &str) -> bool {
    text.len() == 36
        && text.chars().enumerate().all(|(i, c)| match i {
            8 | 13 | 18 | 23 => c == '-',
            _ => c.is_ascii_digit() || ('a'..='f').contains(&c),
        })
}

#[test]
fn unique_name_has_stem_token_and_extension() {
    assert_eq!(compose_unique_name("photo", "T", "png"), "photo-T.png");
}

#[test]
fn unique_name_without_extension_has_no_dot() {
    assert_eq!(compose_unique_name("README", "T", ""), "README-T");
}

#[test]
fn unique_name_splits_the_file_name() {
    assert_eq!(unique_name_with("photo.png", TOKEN), format!("photo-{}.png", TOKEN));
    assert_eq!(unique_name_with("archive.tar.gz", TOKEN), format!("archive.tar-{}.gz", TOKEN));
    assert_eq!(unique_name_with("README", TOKEN), format!("README-{}", TOKEN));
    assert_eq!(unique_name_with(".bashrc", TOKEN), format!(".bashrc-{}", TOKEN));
    assert_eq!(unique_name_with("notes.", TOKEN), format!("notes-{}", TOKEN));
}

#[test]
fn unique_name_drops_directories() {
    assert_eq!(unique_name_with("../../etc/passwd", TOKEN), format!("passwd-{}", TOKEN));
    assert_eq!(unique_name_with("dir/photo.png", TOKEN), format!("photo-{}.png", TOKEN));
}

#[test]
fn unique_name_falls_back_to_file() {
    assert_eq!(unique_name_with("", TOKEN), format!("file-{}", TOKEN));
    assert_eq!(unique_name_with("..", TOKEN), format!("file-{}", TOKEN));
    assert_eq!(unique_name_with("/", TOKEN), format!("file-{}", TOKEN));
}

#[test]
fn paths_are_joined_with_one_slash() {
    assert_eq!(join_under("./files", "a.png"), "./files/a.png");
    assert_eq!(join_under("./files/", "a.png"), "./files/a.png");
    assert_eq!(join_under("", "a.png"), "a.png");
    assert_eq!(join_under("/", "a.png"), "/a.png");
}

#[test]
fn local_write_goes_under_the_root() {
    let storage = LocalStorage::new("./files".to_string());
    let plan = storage.store_file_as("photo.png", vec![1, 2, 3], TOKEN);
    let path = format!("./files/photo-{}.png", TOKEN);
    assert_eq!(plan.locator, path);
    assert_eq!(
        plan.request,
        StoreRequest::WriteFile {
            path,
            parent: Some("./files".to_string()),
            data: vec![1, 2, 3],
        }
    );
}

#[test]
fn local_write_draws_a_fresh_token() {
    let storage = LocalStorage::new("./files".to_string());
    let first = storage.store_file("photo.png", vec![1]);
    let second = storage.store_file("photo.png", vec![1]);
    assert_ne!(first.locator, second.locator);
    let token = first
        .locator
        .strip_prefix("./files/photo-")
        .and_then(|rest| rest.strip_suffix(".png"))
        .expect("the locator has the shape of a unique name under the root");
    assert!(is_token(token));
}

#[test]
fn local_read_and_removal_address_the_path() {
    let storage = LocalStorage::new("./files".to_string());
    assert_eq!(
        storage.get_file("./files/a.png"),
        FetchRequest::ReadFile { path: "./files/a.png".to_string() }
    );
    assert_eq!(
        storage.delete_file("./files/a.png"),
        DeleteRequest::RemoveFile { path: "./files/a.png".to_string() }
    );
}

#[test]
fn local_backend_guesses_png() {
    let storage = LocalStorage::new("./files".to_string());
    assert_eq!(storage.get_mime_type("photo.png"), "image/png");
}

#[test]
fn media_type_falls_back_to_octet_stream() {
    let storage = LocalStorage::new("./files".to_string());
    assert_eq!(storage.get_mime_type("README"), "application/octet-stream");
    assert_eq!(storage.get_mime_type("data.unknown-extension"), "application/octet-stream");
    assert_eq!(storage.get_mime_type(""), "application/octet-stream");
}

#[test]
fn media_type_ignores_case() {
    let storage = LocalStorage::new("./files".to_string());
    assert_eq!(storage.get_mime_type("PHOTO.PNG"), "image/png");
    assert_eq!(storage.get_mime_type("notes.txt"), "text/plain");
}

#[test]
fn object_store_settings_are_kept() {
    let storage = S3Storage::new("bucket".to_string(), Some("eu-west-1".to_string()), None);
    assert_eq!(storage.bucket(), "bucket");
    assert_eq!(storage.region(), &Some("eu-west-1".to_string()));
    assert_eq!(storage.endpoint_url(), &None);
    assert!(!storage.force_path_style());
}

#[test]
fn custom_endpoint_forces_path_style() {
    let storage =
        S3Storage::new("bucket".to_string(), None, Some("http://localhost:9000".to_string()));
    assert_eq!(storage.endpoint_url(), &Some("http://localhost:9000".to_string()));
    assert!(storage.force_path_style());
}

#[test]
fn object_write_goes_under_uploads() {
    let storage = S3Storage::new("bucket".to_string(), None, None);
    let plan = storage.store_file_as("photo.png", vec![9, 8], TOKEN);
    let key = format!("uploads/photo-{}.png", TOKEN);
    assert_eq!(plan.locator, key);
    assert_eq!(
        plan.request,
        StoreRequest::PutObject {
            bucket: "bucket".to_string(),
            key,
            content_type: "image/png".to_string(),
            data: vec![9, 8],
        }
    );
}

#[test]
fn object_write_draws_a_fresh_token() {
    let storage = S3Storage::new("bucket".to_string(), None, None);
    let first = storage.store_file("a.bin", vec![]);
    let second = storage.store_file("a.bin", vec![]);
    assert_ne!(first.locator, second.locator);
    let token = first
        .locator
        .strip_prefix("uploads/a-")
        .and_then(|rest| rest.strip_suffix(".bin"))
        .expect("the locator has the shape of a key");
    assert!(is_token(token));
}

#[test]
fn object_read_and_removal_address_the_key() {
    let storage = S3Storage::new("bucket".to_string(), None, None);
    assert_eq!(
        storage.get_file("uploads/a.png"),
        FetchRequest::GetObject { bucket: "bucket".to_string(), key: "uploads/a.png".to_string() }
    );
    assert_eq!(
        storage.delete_file("uploads/a.png"),
        DeleteRequest::DeleteObject {
            bucket: "bucket".to_string(),
            key: "uploads/a.png".to_string(),
        }
    );
}

#[test]
fn slashes_in_front_of_a_key_are_taken_off() {
    let storage = S3Storage::new("bucket".to_string(), None, None);
    assert_eq!(
        storage.get_file("/uploads/a.png"),
        FetchRequest::GetObject { bucket: "bucket".to_string(), key: "uploads/a.png".to_string() }
    );
    assert_eq!(
        storage.delete_file("//uploads/a.png"),
        DeleteRequest::DeleteObject {
            bucket: "bucket".to_string(),
            key: "uploads/a.png".to_string(),
        }
    );
}

#[test]
fn object_locator_leads_back_to_its_key() {
    let storage = S3Storage::new("bucket".to_string(), None, None);
    let plan = storage.store_file("photo.png", vec![1]);
    let key = match &plan.request {
        StoreRequest::PutObject { key, .. } => key.clone(),
        other => panic!("unexpected request {:?}", other),
    };
    assert_eq!(
        storage.get_file(&plan.locator),
        FetchRequest::GetObject { bucket: "bucket".to_string(), key }
    );
}

#[test]
fn object_store_guesses_media_types() {
    let storage = S3Storage::new("bucket".to_string(), None, None);
    assert_eq!(storage.get_mime_type("uploads/photo-x.png"), "image/png");
    assert_eq!(storage.get_mime_type("uploads/blob"), "application/octet-stream");
}

#[test]
fn configuration_selects_the_local_backend() {
    let storage = Storage::from_config(&config(StorageType::Local)).unwrap();
    assert_eq!(storage, Storage::Local(LocalStorage::new("./files".to_string())));
    assert_eq!(storage.storage_type(), "local");
}

#[test]
fn configuration_selects_the_object_store() {
    let storage = Storage::from_config(&config(StorageType::S3)).unwrap();
    let expected = S3Storage::new(
        "bucket".to_string(),
        Some("eu-west-1".to_string()),
        Some("http://localhost:9000".to_string()),
    );
    assert_eq!(storage, Storage::S3(expected));
    assert_eq!(storage.storage_type(), "s3");
}

#[test]
fn object_store_cannot_be_built_without_a_bucket() {
    let mut settings = config(StorageType::S3);
    settings.s3_bucket = None;
    assert_eq!(Storage::from_config(&settings), Err(ConfigError::BucketNotConfigured));
}

#[test]
fn backend_dispatches_to_its_variant() {
    let local = Storage::Local(LocalStorage::new("root".to_string()));
    let s3 = Storage::S3(S3Storage::new("bucket".to_string(), None, None));
    assert_eq!(local.get_file("root/a"), FetchRequest::ReadFile { path: "root/a".to_string() });
    assert_eq!(
        s3.get_file("uploads/a"),
        FetchRequest::GetObject { bucket: "bucket".to_string(), key: "uploads/a".to_string() }
    );
    assert_eq!(local.delete_file("root/a"), DeleteRequest::RemoveFile { path: "root/a".to_string() });
    assert_eq!(
        s3.delete_file("uploads/a"),
        DeleteRequest::DeleteObject { bucket: "bucket".to_string(), key: "uploads/a".to_string() }
    );
    assert_eq!(local.store_file_as("a.txt", vec![], "T").locator, "root/a-T.txt");
    assert_eq!(s3.store_file_as("a.txt", vec![], "T").locator, "uploads/a-T.txt");
    assert_eq!(local.get_mime_type("a.txt"), "text/plain");
    assert_eq!(s3.get_mime_type("a.txt"), "text/plain");
    assert_ne!(local.store_file("a", vec![]).locator, local.store_file("a", vec![]).locator);
}
