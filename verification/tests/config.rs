use file_server_rs::config::{Config, ConfigError, StorageType};

fn base() -> Config {
    Config {
        database_url: "sqlite:./files.db".to_string(),
        host: "0.0.0.0".to_string(),
        port: 3000,
        max_file_size: 52428800,
        allowed_file_types: Some("*".to_string()),
        storage_type: StorageType::Local,
        storage_path: "./files".to_string(),
        auth_token: None,
        disable_upload_page: false,
        s3_bucket: None,
        s3_region: None,
        aws_access_key_id: None,
        aws_secret_access_key: None,
        aws_endpoint_url: None,
    }
}

#[test]
fn storage_type_tags() {
    assert_eq!(StorageType::Local.to_string(), "local");
    assert_eq!(StorageType::S3.to_string(), "s3");
}

#[test]
fn local_configuration_names_its_directory() {
    assert_eq!(base().validate(), Ok(Some("./files".to_string())));
}

#[test]
fn object_store_needs_a_bucket() {
    let mut config = base();
    config.storage_type = StorageType::S3;
    config.s3_region = Some("us-east-1".to_string());
    assert_eq!(config.validate(), Err(ConfigError::MissingBucket));
}

#[test]
fn object_store_needs_a_region() {
    let mut config = base();
    config.storage_type = StorageType::S3;
    config.s3_bucket = Some("bucket".to_string());
    assert_eq!(config.validate(), Err(ConfigError::MissingRegion));
}

#[test]
fn missing_bucket_is_reported_before_missing_region() {
    let mut config = base();
    config.storage_type = StorageType::S3;
    assert_eq!(config.validate(), Err(ConfigError::MissingBucket));
}

#[test]
fn complete_object_store_configuration_passes() {
    let mut config = base();
    config.storage_type = StorageType::S3;
    config.s3_bucket = Some("bucket".to_string());
    config.s3_region = Some("us-east-1".to_string());
    assert_eq!(config.validate(), Ok(None));
}

#[test]
fn local_configuration_ignores_object_store_settings() {
    let mut config = base();
    config.s3_bucket = None;
    config.s3_region = None;
    assert!(config.validate().is_ok());
}

#[test]
fn configuration_errors_have_messages() {
    assert_eq!(
        ConfigError::MissingBucket.to_string(),
        "S3 bucket must be specified when using S3 storage"
    );
    assert_eq!(
        ConfigError::MissingRegion.to_string(),
        "S3 region must be specified when using S3 storage"
    );
    assert_eq!(ConfigError::BucketNotConfigured.to_string(), "S3 bucket not configured");
}

#[test]
fn allowed_types_default_to_the_wildcard() {
    let mut config = base();
    config.allowed_file_types = None;
    assert_eq!(config.allowed_file_types_vec(), vec!["*"]);
}

#[test]
fn allowed_types_are_split_and_trimmed() {
    let mut config = base();
    config.allowed_file_types = Some("image/png , image/jpeg,text/plain".to_string());
    assert_eq!(config.allowed_file_types_vec(), vec!["image/png", "image/jpeg", "text/plain"]);
}

#[test]
fn cloned_configuration_is_equal() {
    let config = base();
    assert_eq!(config.clone(), config);
}
